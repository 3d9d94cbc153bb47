use vstd::prelude::*;

verus! {

/// Appends one character to a string with std's `String::push`; trusted to leave
/// the string's characters as they were, followed by `c`, as std documents.
#[verifier::external_body]
fn push_char(s: &mut String, c: char)
    ensures
        final(s)@ == old(s)@.push(c),
{
    s.push(c);
}

/// The characters of a string slice, in order.
pub fn chars_of(s: &str) -> (v: Vec<char>)
    ensures
        v@ == s@,
{
    let mut v: Vec<char> = Vec::new();
    for c in it: s.chars()
        invariant
            v@ == it.seq().take(it.index()),
            it.seq() == s@,
    {
        v.push(c);
    }
    v
}

/// A string holding the given characters.
pub fn string_of(v: &[char]) -> (s: String)
    ensures
        s@ == v@,
{
    let mut s = String::new();
    let mut i: usize = 0;
    while i < v.len()
        invariant
            i <= v.len(),
            s@ == v@.take(i as int),
        decreases v.len() - i,
    {
        push_char(&mut s, v[i]);
        assert(v@.take(i + 1) =~= v@.take(i as int).push(v@[i as int]));
        i = i + 1;
    }
    assert(v@.take(v.len() as int) =~= v@);
    s
}


/// Characters with the Unicode `White_Space` property, the set that
/// `char::is_whitespace` and `str::trim` use.
pub open spec fn is_space(c: char) -> bool {
    ||| ('\u{9}' <= c && c <= '\u{d}')
    ||| c == ' '
    ||| c == '\u{85}'
    ||| c == '\u{a0}'
    ||| c == '\u{1680}'
    ||| ('\u{2000}' <= c && c <= '\u{200a}')
    ||| c == '\u{2028}'
    ||| c == '\u{2029}'
    ||| c == '\u{202f}'
    ||| c == '\u{205f}'
    ||| c == '\u{3000}'
}

/// `s` without its leading characters that satisfy `p`.
pub open spec fn drop_leading(s: Seq<char>, p: spec_fn(char) -> bool) -> Seq<char>
    decreases s.len(),
{
    if s.len() > 0 && p(s[0]) {
        drop_leading(s.drop_first(), p)
    } else {
        s
    }
}

/// `s` without its trailing characters that satisfy `p`.
pub open spec fn drop_trailing(s: Seq<char>, p: spec_fn(char) -> bool) -> Seq<char>
    decreases s.len(),
{
    if s.len() > 0 && p(s.last()) {
        drop_trailing(s.drop_last(), p)
    } else {
        s
    }
}

pub open spec fn space_pred() -> spec_fn(char) -> bool {
    |c: char| is_space(c)
}

pub open spec fn char_pred(ch: char) -> spec_fn(char) -> bool {
    |c: char| c == ch
}

/// `str::trim`.
pub open spec fn trim_spec(s: Seq<char>) -> Seq<char> {
    drop_trailing(drop_leading(s, space_pred()), space_pred())
}

/// `str::trim_matches` with a single character.
pub open spec fn trim_char_spec(s: Seq<char>, ch: char) -> Seq<char> {
    drop_trailing(drop_leading(s, char_pred(ch)), char_pred(ch))
}

/// ASCII lowercase of one character; other characters are unchanged.
pub open spec fn ascii_lower(c: char) -> char {
    if 'A' <= c && c <= 'Z' {
        ((c as u32) + 32) as char
    } else {
        c
    }
}

/// `str::to_ascii_lowercase`.
pub open spec fn lower_spec(s: Seq<char>) -> Seq<char> {
    s.map_values(|c: char| ascii_lower(c))
}

/// `str::eq_ignore_ascii_case`.
pub open spec fn eq_ignore_case_spec(a: Seq<char>, b: Seq<char>) -> bool {
    lower_spec(a) == lower_spec(b)
}

/// `t` occurs in `s` as a contiguous run.
pub open spec fn contains_spec(s: Seq<char>, t: Seq<char>) -> bool {
    exists|i: int| 0 <= i && i + t.len() <= s.len() && #[trigger] s.subrange(i, i + t.len()) == t
}

/// The pieces of `s` between occurrences of `sep` (`str::split` with a character),
/// built from the left: one piece more than there are separators.
pub open spec fn split_spec(s: Seq<char>, sep: char) -> Seq<Seq<char>>
    decreases s.len(),
{
    if s.len() == 0 {
        seq![Seq::empty()]
    } else {
        let prev = split_spec(s.drop_last(), sep);
        if s.last() == sep {
            prev.push(Seq::empty())
        } else {
            prev.update(prev.len() - 1, prev.last().push(s.last()))
        }
    }
}

/// The pieces joined with `sep` between them (`[T]::join`).
pub open spec fn join_spec(parts: Seq<Seq<char>>, sep: char) -> Seq<char>
    decreases parts.len(),
{
    if parts.len() == 0 {
        Seq::empty()
    } else if parts.len() == 1 {
        parts[0]
    } else {
        join_spec(parts.drop_last(), sep) + seq![sep] + parts.last()
    }
}


/// Which characters a trim removes.
pub enum Strip {
    Space,
    Char(char),
}

impl Strip {
    pub open spec fn pred(self) -> spec_fn(char) -> bool {
        match self {
            Strip::Space => space_pred(),
            Strip::Char(ch) => char_pred(ch),
        }
    }

    pub fn matches(&self, c: char) -> (r: bool)
        ensures
            r == (self.pred())(c),
    {
        match self {
            Strip::Space => {
                ('\u{9}' <= c && c <= '\u{d}') || c == ' ' || c == '\u{85}' || c == '\u{a0}'
                    || c == '\u{1680}' || ('\u{2000}' <= c && c <= '\u{200a}') || c == '\u{2028}'
                    || c == '\u{2029}' || c == '\u{202f}' || c == '\u{205f}' || c == '\u{3000}'
            },
            Strip::Char(ch) => c == *ch,
        }
    }
}

pub proof fn lemma_drop_leading_prefix(s: Seq<char>, p: spec_fn(char) -> bool, i: int)
    requires
        0 <= i <= s.len(),
        forall|k: int| 0 <= k < i ==> p(#[trigger] s[k]),
    ensures
        drop_leading(s, p) == drop_leading(s.subrange(i, s.len() as int), p),
    decreases i,
{
    if i == 0 {
        assert(s.subrange(0, s.len() as int) =~= s);
    } else {
        lemma_drop_leading_prefix(s, p, i - 1);
        let t = s.subrange(i - 1, s.len() as int);
        assert(t[0] == s[i - 1]);
        assert(t.drop_first() =~= s.subrange(i, s.len() as int));
    }
}

pub proof fn lemma_drop_trailing_suffix(s: Seq<char>, p: spec_fn(char) -> bool, j: int)
    requires
        0 <= j <= s.len(),
        forall|k: int| j <= k < s.len() ==> p(#[trigger] s[k]),
    ensures
        drop_trailing(s, p) == drop_trailing(s.subrange(0, j), p),
    decreases s.len() - j,
{
    if j == s.len() {
        assert(s.subrange(0, j) =~= s);
    } else {
        lemma_drop_trailing_suffix(s, p, j + 1);
        let t = s.subrange(0, j + 1);
        assert(t.last() == s[j]);
        assert(t.drop_last() =~= s.subrange(0, j));
    }
}

/// Index of the first character of `v` at or after `from` that the trim keeps,
/// or `v.len()`.
fn skip_leading(v: &Vec<char>, strip: &Strip) -> (i: usize)
    ensures
        i <= v.len(),
        drop_leading(v@, strip.pred()) == v@.subrange(i as int, v@.len() as int),
{
    let mut i: usize = 0;
    while i < v.len() && strip.matches(v[i])
        invariant
            i <= v.len(),
            forall|k: int| 0 <= k < i ==> (strip.pred())(#[trigger] v@[k]),
        decreases v.len() - i,
    {
        i = i + 1;
    }
    proof {
        lemma_drop_leading_prefix(v@, strip.pred(), i as int);
    }
    i
}

/// End index (exclusive) of what a trailing trim keeps of `v[..end]`.
fn skip_trailing(v: &Vec<char>, start: usize, strip: &Strip) -> (j: usize)
    requires
        start <= v.len(),
    ensures
        start <= j <= v.len(),
        drop_trailing(v@.subrange(start as int, v@.len() as int), strip.pred()) == v@.subrange(
            start as int,
            j as int,
        ),
{
    let ghost t = v@.subrange(start as int, v@.len() as int);
    let mut j: usize = v.len();
    while j > start && strip.matches(v[j - 1])
        invariant
            start <= j <= v.len(),
            t == v@.subrange(start as int, v@.len() as int),
            forall|k: int| j <= k < v@.len() ==> (strip.pred())(#[trigger] v@[k]),
        decreases j,
    {
        j = j - 1;
    }
    proof {
        assert forall|k: int| j - start <= k < t.len() implies (strip.pred())(#[trigger] t[k]) by {
            assert(t[k] == v@[k + start]);
        }
        lemma_drop_trailing_suffix(t, strip.pred(), j - start);
        assert(t.subrange(0, j - start) =~= v@.subrange(start as int, j as int));
        if j > start {
            let u = v@.subrange(start as int, j as int);
            assert(u.last() == v@[j - 1]);
        }
    }
    j
}

/// Characters `v[from..to]` as a string.
fn string_of_range(v: &Vec<char>, from: usize, to: usize) -> (s: String)
    requires
        from <= to <= v.len(),
    ensures
        s@ == v@.subrange(from as int, to as int),
{
    let mut s = String::new();
    let mut i: usize = from;
    while i < to
        invariant
            from <= i <= to <= v.len(),
            s@ == v@.subrange(from as int, i as int),
        decreases to - i,
    {
        push_char(&mut s, v[i]);
        assert(v@.subrange(from as int, i + 1) =~= v@.subrange(from as int, i as int).push(v@[i as int]));
        i = i + 1;
    }
    s
}

/// `str::trim`: removes leading and trailing white space.
pub fn trim(s: &str) -> (r: String)
    ensures
        r@ == trim_spec(s@),
{
    let v = chars_of(s);
    let strip = Strip::Space;
    let i = skip_leading(&v, &strip);
    let j = skip_trailing(&v, i, &strip);
    string_of_range(&v, i, j)
}

/// `str::trim_matches` with one character.
pub fn trim_char(s: &str, ch: char) -> (r: String)
    ensures
        r@ == trim_char_spec(s@, ch),
{
    let v = chars_of(s);
    let strip = Strip::Char(ch);
    let i = skip_leading(&v, &strip);
    let j = skip_trailing(&v, i, &strip);
    string_of_range(&v, i, j)
}

/// `str::trim_start_matches` with one character.
pub fn trim_start_char(s: &str, ch: char) -> (r: String)
    ensures
        r@ == drop_leading(s@, char_pred(ch)),
{
    let v = chars_of(s);
    let strip = Strip::Char(ch);
    let i = skip_leading(&v, &strip);
    string_of_range(&v, i, v.len())
}

/// `str::trim_end_matches` with one character.
pub fn trim_end_char(s: &str, ch: char) -> (r: String)
    ensures
        r@ == drop_trailing(s@, char_pred(ch)),
{
    let v = chars_of(s);
    let strip = Strip::Char(ch);
    let j = skip_trailing(&v, 0, &strip);
    assert(v@.subrange(0, v@.len() as int) =~= v@);
    string_of_range(&v, 0, j)
}


/// `char::to_ascii_lowercase`.
pub fn lower_char(c: char) -> (r: char)
    ensures
        r == ascii_lower(c),
{
    if 'A' <= c && c <= 'Z' {
        let b: u8 = c as u8;
        let lowered: u8 = b + 32;
        lowered as char
    } else {
        c
    }
}

/// `str::to_ascii_lowercase`.
pub fn to_lower(s: &str) -> (r: String)
    ensures
        r@ == lower_spec(s@),
{
    let v = chars_of(s);
    let mut out = String::new();
    let mut i: usize = 0;
    while i < v.len()
        invariant
            i <= v.len(),
            v@ == s@,
            out@ == lower_spec(v@.take(i as int)),
        decreases v.len() - i,
    {
        let c = lower_char(v[i]);
        push_char(&mut out, c);
        assert(lower_spec(v@.take(i + 1)) =~= lower_spec(v@.take(i as int)).push(c));
        i = i + 1;
    }
    assert(v@.take(v.len() as int) =~= v@);
    out
}

/// `str::eq_ignore_ascii_case`.
pub fn eq_ignore_case(a: &str, b: &str) -> (r: bool)
    ensures
        r == eq_ignore_case_spec(a@, b@),
{
    let va = chars_of(a);
    let vb = chars_of(b);
    if va.len() != vb.len() {
        assert(lower_spec(a@).len() != lower_spec(b@).len());
        return false;
    }
    let mut i: usize = 0;
    while i < va.len()
        invariant
            i <= va.len() == vb.len(),
            va@ == a@,
            vb@ == b@,
            forall|k: int| 0 <= k < i ==> ascii_lower(#[trigger] va@[k]) == ascii_lower(vb@[k]),
        decreases va.len() - i,
    {
        if lower_char(va[i]) != lower_char(vb[i]) {
            assert(lower_spec(a@)[i as int] != lower_spec(b@)[i as int]);
            return false;
        }
        i = i + 1;
    }
    assert(lower_spec(a@) =~= lower_spec(b@));
    true
}

/// Whether `t` occurs in `s`.
pub fn contains(s: &str, t: &str) -> (r: bool)
    ensures
        r == contains_spec(s@, t@),
{
    let vs = chars_of(s);
    let vt = chars_of(t);
    if vt.len() > vs.len() {
        return false;
    }
    if vt.len() == 0 {
        assert(s@.subrange(0, 0 + t@.len() as int) =~= t@);
        return true;
    }
    let limit: usize = vs.len() - vt.len() + 1;
    let mut i: usize = 0;
    while i < limit
        invariant
            1 <= vt.len() <= vs.len(),
            limit == vs.len() - vt.len() + 1,
            i <= limit,
            vs@ == s@,
            vt@ == t@,
            forall|k: int| 0 <= k < i ==> #[trigger] s@.subrange(k, k + t@.len()) != t@,
        decreases vs.len() - vt.len() + 1 - i,
    {
        let mut j: usize = 0;
        let mut same = true;
        while j < vt.len()
            invariant
                vt.len() <= vs.len(),
                i <= vs.len() - vt.len(),
                j <= vt.len(),
                vs@ == s@,
                vt@ == t@,
                same ==> forall|k: int| 0 <= k < j ==> vs@[i + k] == vt@[k],
                !same ==> s@.subrange(i as int, i + t@.len()) != t@,
            ensures
                same ==> j == vt.len(),
                same ==> forall|k: int| 0 <= k < j ==> vs@[i + k] == vt@[k],
                !same ==> s@.subrange(i as int, i + t@.len()) != t@,
            decreases vt.len() - j + (if same { 1int } else { 0int }),
        {
            if vs[i + j] != vt[j] {
                assert(s@.subrange(i as int, i + t@.len())[j as int] != t@[j as int]);
                same = false;
                break;
            }
            j = j + 1;
        }
        if same {
            assert(s@.subrange(i as int, i + t@.len()) =~= t@);
            return true;
        }
        i = i + 1;
    }
    false
}


/// The characters of each string.
pub open spec fn views(v: Seq<String>) -> Seq<Seq<char>> {
    v.map_values(|x: String| x@)
}

/// `str::split` with a single character.
pub fn split(s: &str, sep: char) -> (r: Vec<String>)
    ensures
        views(r@) == split_spec(s@, sep),
{
    let v = chars_of(s);
    let mut done: Vec<String> = Vec::new();
    let mut cur: Vec<char> = Vec::new();
    let mut i: usize = 0;
    assert(v@.take(0) =~= Seq::<char>::empty());
    assert(views(done@).push(cur@) =~= seq![Seq::<char>::empty()]);
    while i < v.len()
        invariant
            i <= v.len(),
            v@ == s@,
            views(done@).push(cur@) == split_spec(v@.take(i as int), sep),
        decreases v.len() - i,
    {
        let c = v[i];
        let ghost prev = split_spec(v@.take(i as int), sep);
        assert(v@.take(i + 1).drop_last() =~= v@.take(i as int));
        assert(v@.take(i + 1).last() == c);
        if c == sep {
            let piece = string_of(cur.as_slice());
            done.push(piece);
            cur = Vec::new();
            assert(views(done@).push(cur@) =~= prev.push(Seq::empty()));
        } else {
            let ghost old_done = done@;
            cur.push(c);
            assert(views(done@).push(cur@) =~= prev.update(prev.len() - 1, prev.last().push(c)));
        }
        i = i + 1;
    }
    assert(v@.take(v.len() as int) =~= v@);
    let piece = string_of(cur.as_slice());
    done.push(piece);
    assert(views(done@) =~= split_spec(s@, sep));
    done
}

/// `[String]::join` with a single-character separator.
pub fn join(parts: &Vec<String>, sep: char) -> (r: String)
    ensures
        r@ == join_spec(views(parts@), sep),
{
    let mut out = String::new();
    let mut i: usize = 0;
    while i < parts.len()
        invariant
            i <= parts.len(),
            out@ == join_spec(views(parts@.take(i as int)), sep),
        decreases parts.len() - i,
    {
        let ghost before = views(parts@.take(i as int));
        let ghost after = views(parts@.take(i + 1));
        assert(after.drop_last() =~= before);
        assert(after.last() == parts@[i as int]@);
        if i == 0 {
            out.append(parts[i].as_str());
            assert(out@ =~= join_spec(after, sep));
        } else {
            push_char(&mut out, sep);
            out.append(parts[i].as_str());
            assert(out@ =~= join_spec(after, sep));
        }
        i = i + 1;
    }
    assert(parts@.take(parts.len() as int) =~= parts@);
    out
}

pub proof fn lemma_split_append(a: Seq<char>, t: Seq<char>, sep: char)
    requires
        !t.contains(sep),
    ensures
        split_spec(a + t, sep) == split_spec(a, sep).update(
            split_spec(a, sep).len() - 1,
            split_spec(a, sep).last() + t,
        ),
        split_spec(a + t, sep).len() == split_spec(a, sep).len(),
    decreases t.len(),
{
    lemma_split_len(a, sep);
    let sa = split_spec(a, sep);
    if t.len() == 0 {
        assert(a + t =~= a);
        assert(sa.last() + t =~= sa.last());
        assert(sa.update(sa.len() - 1, sa.last()) =~= sa);
    } else {
        let t0 = t.drop_last();
        let x = t.last();
        assert(!t0.contains(sep)) by {
            if t0.contains(sep) {
                let k = choose|k: int| 0 <= k < t0.len() && t0[k] == sep;
                assert(t[k] == sep);
            }
        }
        assert(x != sep) by {
            assert(t[t.len() - 1] == x);
        }
        lemma_split_append(a, t0, sep);
        assert((a + t).drop_last() =~= a + t0);
        assert((a + t).last() == x);
        let prev = split_spec(a + t0, sep);
        assert(prev.len() == sa.len());
        assert(prev.last() == prev[prev.len() - 1]);
        assert(prev.last() == sa.last() + t0);
        assert(prev.last().push(x) =~= sa.last() + t);
        assert(prev.update(prev.len() - 1, prev.last().push(x)) =~= sa.update(
            sa.len() - 1,
            sa.last() + t,
        ));
    }
}

pub proof fn lemma_split_len(s: Seq<char>, sep: char)
    ensures
        split_spec(s, sep).len() >= 1,
    decreases s.len(),
{
    if s.len() > 0 {
        lemma_split_len(s.drop_last(), sep);
    }
}

/// Splitting after a separator starts a new piece.
pub proof fn lemma_split_sep(a: Seq<char>, t: Seq<char>, sep: char)
    requires
        !t.contains(sep),
    ensures
        split_spec(a + seq![sep] + t, sep) == split_spec(a, sep).push(t),
{
    let b = a + seq![sep];
    assert(b.drop_last() =~= a);
    assert(b.last() == sep);
    lemma_split_append(b, t, sep);
    let sb = split_spec(b, sep);
    assert(sb == split_spec(a, sep).push(Seq::empty()));
    assert(Seq::<char>::empty() + t =~= t);
    assert(sb.update(sb.len() - 1, sb.last() + t) =~= split_spec(a, sep).push(t));
}

/// A piece without separators splits into itself.
pub proof fn lemma_split_single(t: Seq<char>, sep: char)
    requires
        !t.contains(sep),
    ensures
        split_spec(t, sep) == seq![t],
{
    let e = Seq::<char>::empty();
    lemma_split_append(e, t, sep);
    assert(e + t =~= t);
    assert(e + t =~= t);
    assert(split_spec(e, sep) == seq![e]);
    assert(seq![e].update(0, e + t) =~= seq![t]);
}

/// Joining pieces that hold no separator, then splitting, gives the pieces back.
pub proof fn lemma_split_join(parts: Seq<Seq<char>>, sep: char)
    requires
        parts.len() >= 1,
        forall|i: int| 0 <= i < parts.len() ==> !(#[trigger] parts[i]).contains(sep),
    ensures
        split_spec(join_spec(parts, sep), sep) == parts,
    decreases parts.len(),
{
    if parts.len() == 1 {
        lemma_split_single(parts[0], sep);
        assert(seq![parts[0]] =~= parts);
    } else {
        let init = parts.drop_last();
        assert forall|i: int| 0 <= i < init.len() implies !(#[trigger] init[i]).contains(sep) by {
            assert(init[i] == parts[i]);
        }
        lemma_split_join(init, sep);
        assert(!parts.last().contains(sep)) by {
            assert(parts.last() == parts[parts.len() - 1]);
        }
        lemma_split_sep(join_spec(init, sep), parts.last(), sep);
        assert(init.push(parts.last()) =~= parts);
    }
}

/// No piece of a split holds the separator.
pub proof fn lemma_split_pieces(s: Seq<char>, sep: char)
    ensures
        forall|i: int|
            0 <= i < split_spec(s, sep).len() ==> !(#[trigger] split_spec(s, sep)[i]).contains(sep),
    decreases s.len(),
{
    if s.len() > 0 {
        let prev = split_spec(s.drop_last(), sep);
        lemma_split_pieces(s.drop_last(), sep);
        lemma_split_len(s.drop_last(), sep);
        if s.last() != sep {
            let cur = split_spec(s, sep);
            assert forall|i: int| 0 <= i < cur.len() implies !(#[trigger] cur[i]).contains(sep) by {
                if i == cur.len() - 1 {
                    let piece = prev.last().push(s.last());
                    assert(prev.last() == prev[prev.len() - 1]);
                    if piece.contains(sep) {
                        let k = choose|k: int| 0 <= k < piece.len() && piece[k] == sep;
                        if k < prev.last().len() {
                            assert(prev.last()[k] == sep);
                        }
                    }
                } else {
                    assert(cur[i] == prev[i]);
                }
            }
        } else {
            let cur = split_spec(s, sep);
            assert forall|i: int| 0 <= i < cur.len() implies !(#[trigger] cur[i]).contains(sep) by {
                if i < prev.len() {
                    assert(cur[i] == prev[i]);
                }
            }
        }
    }
}


pub proof fn lemma_drop_leading_range(s: Seq<char>, p: spec_fn(char) -> bool) -> (k: int)
    ensures
        0 <= k <= s.len(),
        drop_leading(s, p) == s.subrange(k, s.len() as int),
        forall|i: int| 0 <= i < k ==> p(#[trigger] s[i]),
        k < s.len() ==> !p(s[k]),
    decreases s.len(),
{
    if s.len() > 0 && p(s[0]) {
        let k0 = lemma_drop_leading_range(s.drop_first(), p);
        assert(s.drop_first().subrange(k0, s.drop_first().len() as int) =~= s.subrange(
            k0 + 1,
            s.len() as int,
        ));
        assert forall|i: int| 0 <= i < k0 + 1 implies p(#[trigger] s[i]) by {
            if i > 0 {
                assert(s[i] == s.drop_first()[i - 1]);
            }
        }
        if k0 + 1 < s.len() {
            assert(s[k0 + 1] == s.drop_first()[k0]);
        }
        k0 + 1
    } else {
        assert(s.subrange(0, s.len() as int) =~= s);
        0
    }
}

pub proof fn lemma_drop_trailing_range(s: Seq<char>, p: spec_fn(char) -> bool) -> (j: int)
    ensures
        0 <= j <= s.len(),
        drop_trailing(s, p) == s.subrange(0, j),
        forall|i: int| j <= i < s.len() ==> p(#[trigger] s[i]),
        j > 0 ==> !p(s[j - 1]),
    decreases s.len(),
{
    if s.len() > 0 && p(s.last()) {
        let j0 = lemma_drop_trailing_range(s.drop_last(), p);
        assert(s.drop_last().subrange(0, j0) =~= s.subrange(0, j0));
        assert forall|i: int| j0 <= i < s.len() implies p(#[trigger] s[i]) by {
            if i < s.len() - 1 {
                assert(s[i] == s.drop_last()[i]);
            }
        }
        if j0 > 0 {
            assert(s[j0 - 1] == s.drop_last()[j0 - 1]);
        }
        j0
    } else {
        assert(s.subrange(0, s.len() as int) =~= s);
        s.len() as int
    }
}

/// Trimming twice is trimming once.
pub proof fn lemma_trim_idempotent(s: Seq<char>)
    ensures
        trim_spec(trim_spec(s)) == trim_spec(s),
{
    let p = space_pred();
    let u = drop_leading(s, p);
    let k = lemma_drop_leading_range(s, p);
    let v = drop_trailing(u, p);
    let j = lemma_drop_trailing_range(u, p);
    if v.len() > 0 {
        assert(v[0] == u[0]);
        assert(u[0] == s[k]);
    }
    assert(drop_leading(v, p) == v);
    let j2 = lemma_drop_trailing_range(v, p);
    if j2 < v.len() {
        assert(v[v.len() - 1] == u[j - 1]);
        assert(p(v[v.len() - 1]));
    }
    assert(v.subrange(0, j2) =~= v);
}

/// A character absent from `s` is absent from every run of `s`.
pub proof fn lemma_subrange_lacks(s: Seq<char>, c: char, i: int, j: int)
    requires
        0 <= i <= j <= s.len(),
        !s.contains(c),
    ensures
        !s.subrange(i, j).contains(c),
{
    if s.subrange(i, j).contains(c) {
        let k = choose|k: int| 0 <= k < j - i && s.subrange(i, j)[k] == c;
        assert(s[i + k] == c);
    }
}

/// A character absent from `s` is absent from its trim.
pub proof fn lemma_trim_lacks(s: Seq<char>, c: char)
    requires
        !s.contains(c),
    ensures
        !trim_spec(s).contains(c),
{
    let p = space_pred();
    let k = lemma_drop_leading_range(s, p);
    let u = drop_leading(s, p);
    lemma_subrange_lacks(s, c, k, s.len() as int);
    let j = lemma_drop_trailing_range(u, p);
    lemma_subrange_lacks(u, c, 0, j);
}


/// Whether two strings hold the same characters.
pub fn str_eq(a: &str, b: &str) -> (r: bool)
    ensures
        r == (a@ == b@),
{
    let va = chars_of(a);
    let vb = chars_of(b);
    if va.len() != vb.len() {
        return false;
    }
    let mut i: usize = 0;
    while i < va.len()
        invariant
            i <= va.len() == vb.len(),
            va@ == a@,
            vb@ == b@,
            forall|k: int| 0 <= k < i ==> #[trigger] va@[k] == vb@[k],
        decreases va.len() - i,
    {
        if va[i] != vb[i] {
            return false;
        }
        i = i + 1;
    }
    assert(a@ =~= b@);
    true
}


/// Every piece of a split consists of characters of the split string.
pub proof fn lemma_split_pieces_within(s: Seq<char>, sep: char, q: spec_fn(char) -> bool)
    requires
        forall|i: int| 0 <= i < s.len() ==> q(#[trigger] s[i]),
    ensures
        forall|i: int, k: int|
            0 <= i < split_spec(s, sep).len() && 0 <= k < split_spec(s, sep)[i].len() ==> q(
                #[trigger] split_spec(s, sep)[i][k],
            ),
    decreases s.len(),
{
    if s.len() > 0 {
        let init = s.drop_last();
        assert forall|i: int| 0 <= i < init.len() implies q(#[trigger] init[i]) by {
            assert(init[i] == s[i]);
        }
        lemma_split_pieces_within(init, sep, q);
        lemma_split_len(init, sep);
        let prev = split_spec(init, sep);
        let cur = split_spec(s, sep);
        assert(q(s[s.len() - 1]));
        assert forall|i: int, k: int| 0 <= i < cur.len() && 0 <= k < cur[i].len() implies q(
            #[trigger] cur[i][k],
        ) by {
            if s.last() == sep {
                if i < prev.len() {
                    assert(cur[i] == prev[i]);
                }
            } else {
                if i == cur.len() - 1 {
                    assert(prev.last() == prev[prev.len() - 1]);
                    if k < prev.last().len() {
                        assert(cur[i][k] == prev[prev.len() - 1][k]);
                    }
                } else {
                    assert(cur[i] == prev[i]);
                }
            }
        }
    }
}

/// The trim of a string is empty exactly when all its characters are white space.
pub proof fn lemma_trim_empty(s: Seq<char>)
    ensures
        trim_spec(s).len() == 0 <==> forall|i: int| 0 <= i < s.len() ==> is_space(#[trigger] s[i]),
{
    let p = space_pred();
    let k = lemma_drop_leading_range(s, p);
    let u = drop_leading(s, p);
    let j = lemma_drop_trailing_range(u, p);
    if trim_spec(s).len() == 0 {
        if k < s.len() {
            assert(u[0] == s[k]);
            if j == 0 {
                assert(p(u[0]));
            }
        }
        assert forall|i: int| 0 <= i < s.len() implies is_space(#[trigger] s[i]) by {
            assert(p(s[i]));
        }
    } else {
        if forall|i: int| 0 <= i < s.len() ==> is_space(#[trigger] s[i]) {
            if k < s.len() {
                assert(p(s[k]));
            }
        }
    }
}


/// The characters of an optional string.
pub open spec fn opt_view(s: Option<String>) -> Option<Seq<char>> {
    match s {
        Some(x) => Some(x@),
        None => None,
    }
}


/// The ASCII digit for `d < 10`.
pub open spec fn digit_char(d: nat) -> char {
    ((48 + d) as u32) as char
}

/// The decimal digits of `n`, without leading zeros (`"0"` for zero).
pub open spec fn decimal_spec(n: nat) -> Seq<char>
    decreases n,
{
    if n < 10 {
        seq![digit_char(n)]
    } else {
        decimal_spec(n / 10).push(digit_char(n % 10))
    }
}

/// `u32::to_string`.
pub fn decimal(n: u32) -> (s: String)
    ensures
        s@ == decimal_spec(n as nat),
    decreases n,
{
    let d: u8 = (n % 10) as u8;
    let c: char = (48u8 + d) as char;
    if n < 10 {
        let mut s = String::new();
        push_char(&mut s, c);
        assert(s@ =~= seq![digit_char(n as nat)]);
        s
    } else {
        let mut s = decimal(n / 10);
        push_char(&mut s, c);
        s
    }
}


/// `s` with every `c` written twice (`str::replace(c, cc)`).
pub open spec fn double_char_spec(s: Seq<char>, c: char) -> Seq<char>
    decreases s.len(),
{
    if s.len() == 0 {
        Seq::empty()
    } else {
        let prev = double_char_spec(s.drop_last(), c);
        if s.last() == c {
            prev.push(c).push(c)
        } else {
            prev.push(s.last())
        }
    }
}

/// Writes every `c` of `s` twice.
pub fn double_char(s: &str, c: char) -> (r: String)
    ensures
        r@ == double_char_spec(s@, c),
{
    let v = chars_of(s);
    let mut out = String::new();
    let mut i: usize = 0;
    while i < v.len()
        invariant
            i <= v.len(),
            v@ == s@,
            out@ == double_char_spec(v@.take(i as int), c),
        decreases v.len() - i,
    {
        assert(v@.take(i + 1).drop_last() =~= v@.take(i as int));
        assert(v@.take(i + 1).last() == v@[i as int]);
        if v[i] == c {
            push_char(&mut out, c);
            push_char(&mut out, c);
        } else {
            push_char(&mut out, v[i]);
        }
        i = i + 1;
    }
    assert(v@.take(v.len() as int) =~= v@);
    out
}


pub open spec fn is_digit(c: char) -> bool {
    '0' <= c && c <= '9'
}

pub open spec fn digit_value(c: char) -> nat {
    ((c as u32) - 48) as nat
}

/// The number that a run of decimal digits writes.
pub open spec fn digits_value(s: Seq<char>) -> nat
    decreases s.len(),
{
    if s.len() == 0 {
        0
    } else {
        digits_value(s.drop_last()) * 10 + digit_value(s.last())
    }
}

/// `s` without one leading `+`.
pub open spec fn unsigned_digits(s: Seq<char>) -> Seq<char> {
    if s.len() > 0 && s[0] == '+' {
        s.drop_first()
    } else {
        s
    }
}

pub open spec fn all_digits(d: Seq<char>) -> bool {
    forall|i: int| 0 <= i < d.len() ==> is_digit(#[trigger] d[i])
}

/// `u64::from_str`: an optional `+`, then one or more ASCII digits whose value
/// fits in a `u64`.
pub open spec fn parse_u64_spec(s: Seq<char>) -> Option<u64> {
    let d = unsigned_digits(s);
    if d.len() > 0 && all_digits(d) && digits_value(d) <= u64::MAX {
        Some(digits_value(d) as u64)
    } else {
        None
    }
}

/// Parses a decimal `u64` as `str::parse::<u64>` does.
pub fn parse_u64(s: &str) -> (r: Option<u64>)
    ensures
        r == parse_u64_spec(s@),
{
    let v = chars_of(s);
    let start: usize = if v.len() > 0 && v[0] == '+' {
        1
    } else {
        0
    };
    let ghost d = unsigned_digits(s@);
    assert(d =~= v@.subrange(start as int, v@.len() as int));
    if start == v.len() {
        return None;
    }
    let mut acc: u64 = 0;
    let mut overflow = false;
    let mut i: usize = start;
    assert(d.take(0) =~= Seq::<char>::empty());
    while i < v.len()
        invariant
            start <= i <= v.len(),
            v@ == s@,
            d == v@.subrange(start as int, v@.len() as int),
            d == unsigned_digits(s@),
            forall|k: int| 0 <= k < i - start ==> is_digit(#[trigger] d[k]),
            !overflow ==> acc as nat == digits_value(d.take(i - start)),
            overflow ==> digits_value(d.take(i - start)) > u64::MAX,
        decreases v.len() - i,
    {
        let c = v[i];
        if !('0' <= c && c <= '9') {
            assert(d[i - start] == c);
            assert(!is_digit(d[i - start]));
            assert(!all_digits(d));
            return None;
        }
        let ghost p = d.take(i - start);
        assert(d.take(i - start + 1).drop_last() =~= p);
        assert(d.take(i - start + 1).last() == c);
        let dv: u64 = ((c as u8) - 48u8) as u64;
        assert(dv == digit_value(c));
        if !overflow {
            match acc.checked_mul(10) {
                Some(m) => match m.checked_add(dv) {
                    Some(a) => {
                        acc = a;
                    },
                    None => {
                        overflow = true;
                    },
                },
                None => {
                    overflow = true;
                },
            }
        }
        assert(d[i - start] == c);
        i = i + 1;
    }
    assert(d.take(v@.len() - start) =~= d);
    if overflow {
        None
    } else {
        Some(acc)
    }
}

} // verus!
