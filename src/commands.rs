//! The command catalog: the notification line of each editing command, and
//! the parameters of the one call that expects an answer.

use vstd::prelude::*;
use crate::codec::{frame_notification, notification_text};
use crate::json::{json_quoted, no_newline, quote};
use crate::text::{array_text, object_text, pairs, write_array, write_object};

verus! {

/// The parameters of an edit: the inner method, its parameters and the view.
pub open spec fn edit_params(method: Seq<char>, view_id: Seq<char>, params: Seq<char>) -> Seq<char> {
    object_text(
        seq![
            ("method"@, json_quoted(method)),
            ("params"@, params),
            ("view_id"@, json_quoted(view_id)),
        ],
    )
}

/// The line of an edit: an `edit` notification that carries the inner
/// method and parameters for the view.
pub open spec fn edit_text(method: Seq<char>, view_id: Seq<char>, params: Seq<char>) -> Seq<char> {
    notification_text("edit"@, edit_params(method, view_id, params))
}

/// An object with one member whose value is a string.
pub open spec fn string_member(key: Seq<char>, value: Seq<char>) -> Seq<char> {
    object_text(seq![(key, json_quoted(value))])
}

fn one_string_member(key: &str, value: &str) -> (r: String)
    ensures
        r@ == string_member(key@, value@),
        no_newline(r@),
{
    let keys = vec![key];
    let values = vec![quote(value)];
    let r = write_object(&keys, &values);
    assert(pairs(keys@, values@) =~= seq![(key@, json_quoted(value@))]);
    r
}

/// The parameters of the call that opens a view on a file (`""` for none).
pub fn new_view_params(filename: &str) -> (r: String)
    ensures
        r@ == string_member("filename"@, filename@),
        no_newline(r@),
{
    one_string_member("filename", filename)
}

/// Closes a view.
pub fn close_view(view_id: &str) -> (r: String)
    ensures
        r@ == notification_text("close_view"@, string_member("view-id"@, view_id@)),
{
    let p = one_string_member("view-id", view_id);
    frame_notification("close_view", p.as_str())
}

/// Saves a view to a file.
pub fn save(view_id: &str, filename: &str) -> (r: String)
    ensures
        r@ == notification_text(
            "save"@,
            object_text(seq![("filename"@, json_quoted(filename@)), ("view-id"@, json_quoted(view_id@))]),
        ),
{
    let keys = vec!["filename", "view-id"];
    let values = vec![quote(filename), quote(view_id)];
    let p = write_object(&keys, &values);
    assert(pairs(keys@, values@) =~= seq![
        ("filename"@, json_quoted(filename@)),
        ("view-id"@, json_quoted(view_id@)),
    ]);
    frame_notification("save", p.as_str())
}

/// An edit of a view: the inner method with its parameters, given as JSON text.
pub fn edit(method: &str, view_id: &str, params: &str) -> (r: String)
    requires
        no_newline(params@),
    ensures
        r@ == edit_text(method@, view_id@, params@),
        no_newline(r@),
{
    let keys = vec!["method", "params", "view_id"];
    let values = vec![quote(method), String::from_str(params), quote(view_id)];
    let p = write_object(&keys, &values);
    assert(pairs(keys@, values@) =~= seq![
        ("method"@, json_quoted(method@)),
        ("params"@, params@),
        ("view_id"@, json_quoted(view_id@)),
    ]);
    frame_notification("edit", p.as_str())
}

/// Inserts text at the cursors of a view.
pub fn insert(view_id: &str, chars: &str) -> (r: String)
    ensures
        r@ == edit_text("insert"@, view_id@, string_member("chars"@, chars@)),
{
    let p = one_string_member("chars", chars);
    edit("insert", view_id, p.as_str())
}

/// Scrolls a view to show the lines from `beg` to `end`.
pub fn scroll(view_id: &str, range: (usize, usize)) -> (r: String)
    ensures
        r@ == edit_text("scroll"@, view_id@, array_text(seq![range.0 as nat, range.1 as nat])),
{
    let (beg, end) = range;
    let items = vec![beg, end];
    let p = write_array(&items);
    assert(items@.map_values(|n: usize| n as nat) =~= seq![beg as nat, end as nat]);
    edit("scroll", view_id, p.as_str())
}

/// A click at a line and column, with modifier flags and a click count.
pub fn click(view_id: &str, at: (usize, usize, usize, usize)) -> (r: String)
    ensures
        r@ == edit_text(
            "click"@,
            view_id@,
            array_text(seq![at.0 as nat, at.1 as nat, at.2 as nat, at.3 as nat]),
        ),
{
    let (line, col, modifiers, click_count) = at;
    let items = vec![line, col, modifiers, click_count];
    let p = write_array(&items);
    assert(items@.map_values(|n: usize| n as nat) =~= seq![
        line as nat,
        col as nat,
        modifiers as nat,
        click_count as nat,
    ]);
    edit("click", view_id, p.as_str())
}

/// A drag to a line and column, with modifier flags.
pub fn drag(view_id: &str, at: (usize, usize, usize)) -> (r: String)
    ensures
        r@ == edit_text("drag"@, view_id@, array_text(seq![at.0 as nat, at.1 as nat, at.2 as nat])),
{
    let (line, col, modifiers) = at;
    let items = vec![line, col, modifiers];
    let p = write_array(&items);
    assert(items@.map_values(|n: usize| n as nat) =~= seq![line as nat, col as nat, modifiers as nat]);
    edit("drag", view_id, p.as_str())
}

/// Deletes backward from the cursors.
pub fn delete_backward(view_id: &str) -> (r: String)
    ensures
        r@ == edit_text("delete_backward"@, view_id@, "{}"@),
{
    proof {
        reveal_strlit("{}");
    }
    edit("delete_backward", view_id, "{}")
}

/// Inserts a line break at the cursors.
pub fn insert_newline(view_id: &str) -> (r: String)
    ensures
        r@ == edit_text("insert_newline"@, view_id@, "{}"@),
{
    proof {
        reveal_strlit("{}");
    }
    edit("insert_newline", view_id, "{}")
}

/// Moves the cursors up a line.
pub fn move_up(view_id: &str) -> (r: String)
    ensures
        r@ == edit_text("move_up"@, view_id@, "{}"@),
{
    proof {
        reveal_strlit("{}");
    }
    edit("move_up", view_id, "{}")
}

/// Moves the cursors up a line, extending the selection.
pub fn move_up_and_modify_selection(view_id: &str) -> (r: String)
    ensures
        r@ == edit_text("move_up_and_modify_selection"@, view_id@, "{}"@),
{
    proof {
        reveal_strlit("{}");
    }
    edit("move_up_and_modify_selection", view_id, "{}")
}

/// Moves the cursors down a line.
pub fn move_down(view_id: &str) -> (r: String)
    ensures
        r@ == edit_text("move_down"@, view_id@, "{}"@),
{
    proof {
        reveal_strlit("{}");
    }
    edit("move_down", view_id, "{}")
}

/// Moves the cursors down a line, extending the selection.
pub fn move_down_and_modify_selection(view_id: &str) -> (r: String)
    ensures
        r@ == edit_text("move_down_and_modify_selection"@, view_id@, "{}"@),
{
    proof {
        reveal_strlit("{}");
    }
    edit("move_down_and_modify_selection", view_id, "{}")
}

/// Moves the cursors left a character.
pub fn move_left(view_id: &str) -> (r: String)
    ensures
        r@ == edit_text("move_left"@, view_id@, "{}"@),
{
    proof {
        reveal_strlit("{}");
    }
    edit("move_left", view_id, "{}")
}

/// Moves the cursors left a character, extending the selection.
pub fn move_left_and_modify_selection(view_id: &str) -> (r: String)
    ensures
        r@ == edit_text("move_left_and_modify_selection"@, view_id@, "{}"@),
{
    proof {
        reveal_strlit("{}");
    }
    edit("move_left_and_modify_selection", view_id, "{}")
}

/// Moves the cursors right a character.
pub fn move_right(view_id: &str) -> (r: String)
    ensures
        r@ == edit_text("move_right"@, view_id@, "{}"@),
{
    proof {
        reveal_strlit("{}");
    }
    edit("move_right", view_id, "{}")
}

/// Moves the cursors right a character, extending the selection.
pub fn move_right_and_modify_selection(view_id: &str) -> (r: String)
    ensures
        r@ == edit_text("move_right_and_modify_selection"@, view_id@, "{}"@),
{
    proof {
        reveal_strlit("{}");
    }
    edit("move_right_and_modify_selection", view_id, "{}")
}

/// Scrolls the view up a page, leaving the cursors.
pub fn scroll_page_up(view_id: &str) -> (r: String)
    ensures
        r@ == edit_text("scroll_page_up"@, view_id@, "{}"@),
{
    proof {
        reveal_strlit("{}");
    }
    edit("scroll_page_up", view_id, "{}")
}

/// Moves the cursors up a page.
pub fn page_up(view_id: &str) -> (r: String)
    ensures
        r@ == edit_text("page_up"@, view_id@, "{}"@),
{
    proof {
        reveal_strlit("{}");
    }
    edit("page_up", view_id, "{}")
}

/// Moves the cursors up a page, extending the selection.
pub fn page_up_and_modify_selection(view_id: &str) -> (r: String)
    ensures
        r@ == edit_text("page_up_and_modify_selection"@, view_id@, "{}"@),
{
    proof {
        reveal_strlit("{}");
    }
    edit("page_up_and_modify_selection", view_id, "{}")
}

/// Scrolls the view down a page, leaving the cursors.
pub fn scroll_page_down(view_id: &str) -> (r: String)
    ensures
        r@ == edit_text("scroll_page_down"@, view_id@, "{}"@),
{
    proof {
        reveal_strlit("{}");
    }
    edit("scroll_page_down", view_id, "{}")
}

/// Moves the cursors down a page.
pub fn page_down(view_id: &str) -> (r: String)
    ensures
        r@ == edit_text("page_down"@, view_id@, "{}"@),
{
    proof {
        reveal_strlit("{}");
    }
    edit("page_down", view_id, "{}")
}

/// Moves the cursors down a page, extending the selection.
pub fn page_down_and_modify_selection(view_id: &str) -> (r: String)
    ensures
        r@ == edit_text("page_down_and_modify_selection"@, view_id@, "{}"@),
{
    proof {
        reveal_strlit("{}");
    }
    edit("page_down_and_modify_selection", view_id, "{}")
}

} // verus!
