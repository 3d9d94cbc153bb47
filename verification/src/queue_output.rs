use vstd::prelude::*;
use crate::json::{Json, JsonView, models};
use crate::text::views;

verus! {

/// The queue entries of a `queue list` reply: `data.list` when it is an array,
/// else the reply itself when it is an array.
pub open spec fn queue_items_spec(value: JsonView) -> Option<Seq<JsonView>> {
    let listed = match value.get("data"@) {
        Some(data) => match data.get("list"@) {
            Some(list) => list.as_array(),
            None => None,
        },
        None => None,
    };
    match listed {
        Some(items) => Some(items),
        None => value.as_array(),
    }
}

/// The id shown for a queue entry.
pub open spec fn queue_id_cell(item: JsonView) -> Seq<char> {
    match item.str_at("queueId"@) {
        Some(s) => s,
        None => "-"@,
    }
}

/// The name shown for a queue entry: `queueName`, or `name` when there is no
/// `queueName` field.
pub open spec fn queue_name_cell(item: JsonView) -> Seq<char> {
    let field = match item.get("queueName"@) {
        Some(v) => Some(v),
        None => item.get("name"@),
    };
    match field {
        Some(v) => match v.as_str() {
            Some(s) => s,
            None => "-"@,
        },
        None => "-"@,
    }
}

pub open spec fn queue_row(item: JsonView) -> Seq<char> {
    queue_id_cell(item) + "\t"@ + queue_name_cell(item)
}

/// The lines of the queue table: a header, then one row per entry.
pub open spec fn queue_table_spec(value: JsonView) -> Seq<Seq<char>> {
    match queue_items_spec(value) {
        Some(items) => seq!["queueId\tname"@] + items.map_values(|item: JsonView| queue_row(item)),
        None => seq!["queueId\tname"@],
    }
}

fn queue_row_exec(item: &Json) -> (s: String)
    ensures
        s@ == queue_row(item@),
{
    let id = match item.str_at("queueId") {
        Some(s) => s,
        None => "-",
    };
    let field = match item.get("queueName") {
        Some(v) => Some(v),
        None => item.get("name"),
    };
    let name = match field {
        Some(v) => match v.as_str() {
            Some(s) => s,
            None => "-",
        },
        None => "-",
    };
    let mut row = String::from_str(id);
    row.append("\t");
    row.append(name);
    row
}

/// The rows for the given queue entries, after the header.
pub fn print_queue_rows(queue_items: &Vec<Json>) -> (lines: Vec<String>)
    ensures
        views(lines@) == seq!["queueId\tname"@] + models(queue_items@).map_values(
            |item: JsonView| queue_row(item),
        ),
{
    let mut lines: Vec<String> = Vec::new();
    lines.push(String::from_str("queueId\tname"));
    let ghost rows = models(queue_items@).map_values(|item: JsonView| queue_row(item));
    let mut i: usize = 0;
    while i < queue_items.len()
        invariant
            i <= queue_items.len(),
            rows == models(queue_items@).map_values(|item: JsonView| queue_row(item)),
            views(lines@) == seq!["queueId\tname"@] + rows.take(i as int),
        decreases queue_items.len() - i,
    {
        let row = queue_row_exec(&queue_items[i]);
        let ghost before = views(lines@);
        assert(models(queue_items@)[i as int] == queue_items@[i as int]@);
        assert(rows[i as int] == row@);
        lines.push(row);
        assert(views(lines@) =~= before.push(row@));
        assert(rows.take(i + 1) =~= rows.take(i as int).push(row@));
        assert(views(lines@) =~= seq!["queueId\tname"@] + rows.take(i + 1));
        i = i + 1;
    }
    assert(rows.take(queue_items.len() as int) =~= rows);
    lines
}

/// The lines of the queue table printed for a `queue list` reply.
pub fn print_queue_table(value: &Json) -> (lines: Vec<String>)
    ensures
        views(lines@) == queue_table_spec(value@),
{
    let listed = match value.get("data") {
        Some(data) => match data.get("list") {
            Some(list) => list.as_array(),
            None => None,
        },
        None => None,
    };
    match listed {
        Some(items) => print_queue_rows(items),
        None => match value.as_array() {
            Some(items) => print_queue_rows(items),
            None => {
                let mut lines: Vec<String> = Vec::new();
                lines.push(String::from_str("queueId\tname"));
                assert(views(lines@) =~= seq!["queueId\tname"@]);
                lines
            },
        },
    }
}

} // verus!
