use vstd::prelude::*;
use crate::text::views;

verus! {

/// Whether the banner is drawn in colour: not when `NO_COLOR` is set, not on
/// Windows without `TERM`, and only on a terminal.
pub fn should_use_color_output(no_color: bool, windows: bool, term_set: bool, stdout_is_terminal: bool) -> (r: bool)
    ensures
        r == (!no_color && !(windows && !term_set) && stdout_is_terminal),
{
    if no_color {
        return false;
    }
    if windows && !term_set {
        return false;
    }
    stdout_is_terminal
}

pub open spec fn logo() -> Seq<Seq<char>> {
    seq![
        " █████  ██    ██ ████████  ██████      ███    ███  █████   ██████ "@,
        "██   ██ ██    ██    ██    ██    ██     ████  ████ ██   ██ ██      "@,
        "███████ ██    ██    ██    ██    ██     ██ ████ ██ ███████  █████  "@,
        "██   ██ ██    ██    ██    ██    ██     ██  ██  ██ ██   ██      ██ "@,
        "██   ██  ██████     ██     ██████      ██      ██ ██   ██ ██████  "@,
    ]
}

pub open spec fn gradient() -> Seq<Seq<char>> {
    seq![
        "\x1b[38;5;39m"@,
        "\x1b[38;5;45m"@,
        "\x1b[38;5;99m"@,
        "\x1b[38;5;141m"@,
        "\x1b[38;5;177m"@,
    ]
}

pub open spec fn tips() -> Seq<Seq<char>> {
    seq![
        "Tips for getting started:"@,
        "1. Run backend status/start/stop"@,
        "2. Run queue list or queue start --queue-id <id>"@,
        "3. Type help for commands, exit to quit"@,
    ]
}

/// The banner's lines: a blank line, the logo, a blank line, the tips, a blank
/// line; in colour each logo line takes the next gradient colour and each tip is
/// muted, every coloured line ending with a reset.
pub open spec fn banner_spec(color: bool) -> Seq<Seq<char>> {
    if color {
        seq![Seq::empty()] + Seq::new(5, |i: int| gradient()[i] + logo()[i] + "\x1b[0m"@) + seq![Seq::empty()]
            + Seq::new(4, |i: int| "\x1b[38;5;246m"@ + tips()[i] + "\x1b[0m"@) + seq![Seq::empty()]
    } else {
        seq![Seq::empty()] + logo() + seq![Seq::empty()] + tips() + seq![Seq::empty()]
    }
}

fn logo_line(i: usize) -> (s: &'static str)
    requires
        i < 5,
    ensures
        s@ == logo()[i as int],
{
    if i == 0 {
        " █████  ██    ██ ████████  ██████      ███    ███  █████   ██████ "
    } else if i == 1 {
        "██   ██ ██    ██    ██    ██    ██     ████  ████ ██   ██ ██      "
    } else if i == 2 {
        "███████ ██    ██    ██    ██    ██     ██ ████ ██ ███████  █████  "
    } else if i == 3 {
        "██   ██ ██    ██    ██    ██    ██     ██  ██  ██ ██   ██      ██ "
    } else {
        "██   ██  ██████     ██     ██████      ██      ██ ██   ██ ██████  "
    }
}

fn gradient_color(i: usize) -> (s: &'static str)
    requires
        i < 5,
    ensures
        s@ == gradient()[i as int],
{
    if i == 0 {
        "\x1b[38;5;39m"
    } else if i == 1 {
        "\x1b[38;5;45m"
    } else if i == 2 {
        "\x1b[38;5;99m"
    } else if i == 3 {
        "\x1b[38;5;141m"
    } else {
        "\x1b[38;5;177m"
    }
}

fn tip_line(i: usize) -> (s: &'static str)
    requires
        i < 4,
    ensures
        s@ == tips()[i as int],
{
    if i == 0 {
        "Tips for getting started:"
    } else if i == 1 {
        "1. Run backend status/start/stop"
    } else if i == 2 {
        "2. Run queue list or queue start --queue-id <id>"
    } else {
        "3. Type help for commands, exit to quit"
    }
}

fn push_line(lines: &mut Vec<String>, s: String)
    ensures
        views(final(lines)@) == views(old(lines)@).push(s@),
{
    let ghost before = views(lines@);
    lines.push(s);
    assert(views(lines@) =~= before.push(s@));
}

/// The lines of the start-up banner (`print_mas_cli_banner`).
pub fn print_mas_cli_banner(color: bool) -> (lines: Vec<String>)
    ensures
        views(lines@) == banner_spec(color),
{
    let mut lines: Vec<String> = Vec::new();
    push_line(&mut lines, String::new());
    let ghost head = views(lines@);
    let mut i: usize = 0;
    while i < 5
        invariant
            i <= 5,
            views(lines@) == head + Seq::new(
                i as nat,
                |k: int| if color { gradient()[k] + logo()[k] + "\x1b[0m"@ } else { logo()[k] },
            ),
        decreases 5 - i,
    {
        let mut s = String::new();
        if color {
            s.append(gradient_color(i));
        }
        s.append(logo_line(i));
        if color {
            s.append("\x1b[0m");
        }
        let ghost before = views(lines@);
        push_line(&mut lines, s);
        assert(views(lines@) =~= head + Seq::new(
            (i + 1) as nat,
            |k: int| if color { gradient()[k] + logo()[k] + "\x1b[0m"@ } else { logo()[k] },
        ));
        i = i + 1;
    }
    push_line(&mut lines, String::new());
    let ghost mid = views(lines@);
    let mut j: usize = 0;
    while j < 4
        invariant
            j <= 4,
            views(lines@) == mid + Seq::new(
                j as nat,
                |k: int| if color { "\x1b[38;5;246m"@ + tips()[k] + "\x1b[0m"@ } else { tips()[k] },
            ),
        decreases 4 - j,
    {
        let mut s = String::new();
        if color {
            s.append("\x1b[38;5;246m");
        }
        s.append(tip_line(j));
        if color {
            s.append("\x1b[0m");
        }
        push_line(&mut lines, s);
        assert(views(lines@) =~= mid + Seq::new(
            (j + 1) as nat,
            |k: int| if color { "\x1b[38;5;246m"@ + tips()[k] + "\x1b[0m"@ } else { tips()[k] },
        ));
        j = j + 1;
    }
    push_line(&mut lines, String::new());
    assert(views(lines@) =~= banner_spec(color));
    lines
}


/// A line as a terminal shows it: every ANSI sequence, from `ESC` up to and
/// including the next `m`, removed.
pub open spec fn strip_ansi(s: Seq<char>) -> Seq<char>
    decreases s.len(),
{
    if s.len() == 0 {
        Seq::empty()
    } else if s[0] == '\x1b' {
        skip_escape(s.drop_first())
    } else {
        seq![s[0]] + strip_ansi(s.drop_first())
    }
}

/// The rest of an ANSI sequence is skipped up to and including its `m`.
pub open spec fn skip_escape(s: Seq<char>) -> Seq<char>
    decreases s.len(),
{
    if s.len() == 0 {
        Seq::empty()
    } else if s[0] == 'm' {
        strip_ansi(s.drop_first())
    } else {
        skip_escape(s.drop_first())
    }
}

/// One complete ANSI sequence: `ESC`, then no `m` until the final `m`.
pub open spec fn is_escape(e: Seq<char>) -> bool {
    &&& e.len() >= 2
    &&& e[0] == '\x1b'
    &&& e.last() == 'm'
    &&& forall|i: int| 1 <= i < e.len() - 1 ==> e[i] != 'm'
}

proof fn lemma_strip_plain(t: Seq<char>, rest: Seq<char>)
    requires
        !t.contains('\x1b'),
    ensures
        strip_ansi(t + rest) == t + strip_ansi(rest),
    decreases t.len(),
{
    if t.len() == 0 {
        assert(t + rest =~= rest);
        assert(t + strip_ansi(rest) =~= strip_ansi(rest));
    } else {
        let u = t + rest;
        assert(u[0] == t[0]);
        assert(u.drop_first() =~= t.drop_first() + rest);
        assert(!t.drop_first().contains('\x1b')) by {
            if t.drop_first().contains('\x1b') {
                let k = choose|k: int| 0 <= k < t.drop_first().len() && t.drop_first()[k] == '\x1b';
                assert(t[k + 1] == '\x1b');
            }
        }
        assert(t[0] != '\x1b') by {
            if t[0] == '\x1b' {
                assert(t.contains('\x1b'));
            }
        }
        lemma_strip_plain(t.drop_first(), rest);
        assert(seq![t[0]] + (t.drop_first() + strip_ansi(rest)) =~= t + strip_ansi(rest));
    }
}

proof fn lemma_skip_tail(e: Seq<char>, rest: Seq<char>)
    requires
        e.len() >= 1,
        e.last() == 'm',
        forall|i: int| 0 <= i < e.len() - 1 ==> e[i] != 'm',
    ensures
        skip_escape(e + rest) == strip_ansi(rest),
    decreases e.len(),
{
    let u = e + rest;
    assert(u[0] == e[0]);
    if e.len() == 1 {
        assert(u.drop_first() =~= rest);
    } else {
        assert(u.drop_first() =~= e.drop_first() + rest);
        lemma_skip_tail(e.drop_first(), rest);
    }
}

proof fn lemma_strip_escape(e: Seq<char>, rest: Seq<char>)
    requires
        is_escape(e),
    ensures
        strip_ansi(e + rest) == strip_ansi(rest),
{
    let u = e + rest;
    assert(u[0] == '\x1b');
    assert(u.drop_first() =~= e.drop_first() + rest);
    lemma_skip_tail(e.drop_first(), rest);
}

/// A coloured line `e + t + r`, with escapes around plain text, shows as `t`.
proof fn lemma_strip_coloured(e: Seq<char>, t: Seq<char>, r: Seq<char>)
    requires
        is_escape(e),
        is_escape(r),
        !t.contains('\x1b'),
    ensures
        strip_ansi(e + t + r) == t,
{
    assert(e + t + r =~= e + (t + r));
    lemma_strip_escape(e, t + r);
    lemma_strip_plain(t, r);
    assert(r =~= r + Seq::<char>::empty());
    lemma_strip_escape(r, Seq::empty());
    assert(t + Seq::<char>::empty() =~= t);
}

proof fn lemma_banner_texts()
    ensures
        forall|i: int| 0 <= i < 5 ==> is_escape(#[trigger] gradient()[i]),
        forall|i: int| 0 <= i < 5 ==> !(#[trigger] logo()[i]).contains('\x1b'),
        forall|i: int| 0 <= i < 4 ==> !(#[trigger] tips()[i]).contains('\x1b'),
        is_escape("\x1b[0m"@),
        is_escape("\x1b[38;5;246m"@),
{
    reveal_strlit("\x1b[38;5;39m");
    reveal_strlit("\x1b[38;5;45m");
    reveal_strlit("\x1b[38;5;99m");
    reveal_strlit("\x1b[38;5;141m");
    reveal_strlit("\x1b[38;5;177m");
    reveal_strlit("\x1b[0m");
    reveal_strlit("\x1b[38;5;246m");
    reveal_strlit(" █████  ██    ██ ████████  ██████      ███    ███  █████   ██████ ");
    reveal_strlit("██   ██ ██    ██    ██    ██    ██     ████  ████ ██   ██ ██      ");
    reveal_strlit("███████ ██    ██    ██    ██    ██     ██ ████ ██ ███████  █████  ");
    reveal_strlit("██   ██ ██    ██    ██    ██    ██     ██  ██  ██ ██   ██      ██ ");
    reveal_strlit("██   ██  ██████     ██     ██████      ██      ██ ██   ██ ██████  ");
    reveal_strlit("Tips for getting started:");
    reveal_strlit("1. Run backend status/start/stop");
    reveal_strlit("2. Run queue list or queue start --queue-id <id>");
    reveal_strlit("3. Type help for commands, exit to quit");
    assert forall|i: int| 0 <= i < 5 implies is_escape(#[trigger] gradient()[i]) by {}
    assert forall|i: int| 0 <= i < 5 implies !(#[trigger] logo()[i]).contains('\x1b') by {}
    assert forall|i: int| 0 <= i < 4 implies !(#[trigger] tips()[i]).contains('\x1b') by {}
}

/// Colour only adds escape sequences: with them removed, each coloured banner line
/// is the plain line; the plain banner holds no escape, the coloured one does.
pub proof fn law_banner_colour_adds_only_escapes()
    ensures
        banner_spec(true).len() == banner_spec(false).len(),
        forall|i: int| 0 <= i < banner_spec(true).len() ==> strip_ansi(#[trigger] banner_spec(true)[i]) == banner_spec(false)[i],
        forall|i: int| 0 <= i < banner_spec(false).len() ==> !(#[trigger] banner_spec(false)[i]).contains('\x1b'),
        banner_spec(true)[1].contains('\x1b'),
{
    lemma_banner_texts();
    let c = banner_spec(true);
    let p = banner_spec(false);
    assert(c.len() == 12);
    assert(p.len() == 12);
    assert forall|i: int| 0 <= i < c.len() implies strip_ansi(#[trigger] c[i]) == p[i] by {
        if i == 0 || i == 6 || i == 11 {
            assert(c[i] =~= Seq::<char>::empty());
            assert(p[i] =~= Seq::<char>::empty());
        } else if 1 <= i < 6 {
            assert(c[i] == gradient()[i - 1] + logo()[i - 1] + "\x1b[0m"@);
            assert(p[i] == logo()[i - 1]);
            lemma_strip_coloured(gradient()[i - 1], logo()[i - 1], "\x1b[0m"@);
        } else {
            assert(c[i] == "\x1b[38;5;246m"@ + tips()[i - 7] + "\x1b[0m"@);
            assert(p[i] == tips()[i - 7]);
            lemma_strip_coloured("\x1b[38;5;246m"@, tips()[i - 7], "\x1b[0m"@);
        }
    }
    assert forall|i: int| 0 <= i < p.len() implies !(#[trigger] p[i]).contains('\x1b') by {
        if i == 0 || i == 6 || i == 11 {
            assert(p[i] =~= Seq::<char>::empty());
        } else if 1 <= i < 6 {
            assert(p[i] == logo()[i - 1]);
        } else {
            assert(p[i] == tips()[i - 7]);
        }
    }
    assert(c[1] == gradient()[0] + logo()[0] + "\x1b[0m"@);
    assert(c[1][0] == '\x1b');
}

} // verus!
