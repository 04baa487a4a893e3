//! Reading the fields of a reply that is almost JSON: each field is cut
//! out by its own pattern, so that a reply with a flaw elsewhere can still
//! be read.

use crate::json::JsonTree;
use crate::json::JsonValue;
use crate::json::json_document;
use crate::json::parse_json;
use crate::llama::llama_utils::match_of;
use crate::pattern::first_match;
use crate::pattern::group;
use crate::pattern::group_text;
use crate::text::join3;
use crate::text::split;
use crate::text::split_char;
use crate::text::str_equal;
use crate::text::strip_char;
use crate::text::stripped;
use crate::text::texts;
use crate::text::trim;
use crate::text::trimmed;
use vstd::prelude::*;

verus! {

/// Finds the first JSON object without nested braces.
pub const FLAT_OBJECT_PATTERN: &'static str = r"\{[^}]*\}";

/// Finds the field that says whether to go on.
pub const CONTINUE_PATTERN: &'static str = r#""continue_or_terminate":\s*"([^"]*)""#;

/// Finds the list of key points.
pub const KEY_POINTS_PATTERN: &'static str = r#""key_points":\s*\[(.*?)\]"#;

/// Finds the list of sub-tasks.
pub const SUB_TASKS_PATTERN: &'static str = r#""sub_tasks":\s*(\[[^\]]*\])"#;

/// Finds the field that says whether a solution was found.
pub const SOLUTION_FOUND_PATTERN: &'static str = r#""solution_found":\s*"([^"]*)""#;

/// Finds the summary of the task.
pub const TASK_SUMMARY_PATTERN: &'static str = r#""task_summary":\s*"([^"]*)""#;

/// What stands before the name of a field in the pattern for the field.
pub const FIELD_PATTERN_HEAD: &'static str = "\"";

/// What stands behind the name of a field in the pattern for the field.
pub const FIELD_PATTERN_TAIL: &'static str = r#"":\s*"([^"]*)""#;

/// The text of group `index` of the first match of `pattern` in
/// `haystack`; the empty text where there is no match, where the group
/// took no part, or where the pattern is none.
pub open spec fn capture_or_empty(pattern: Seq<char>, haystack: Seq<char>, index: int) -> Seq<
    char,
> {
    match match_of(pattern, haystack) {
        Ok(Some(groups)) => match group_text(groups, index) {
            Some(text) => text,
            None => Seq::empty(),
        },
        _ => Seq::empty(),
    }
}

/// The text of group `index` of the first match of `pattern` in
/// `haystack`, or the empty text.
pub fn captured(pattern: &str, haystack: &str, index: usize) -> (text: String)
    ensures
        text@ == capture_or_empty(pattern@, haystack@, index as int),
{
    match first_match(pattern, haystack) {
        Ok(Some(groups)) => match group(&groups, index) {
            Some(text) => text.clone(),
            None => String::new(),
        },
        _ => String::new(),
    }
}

/// The pattern that finds the text field `marker`.
pub open spec fn field_pattern(marker: Seq<char>) -> Seq<char> {
    FIELD_PATTERN_HEAD@ + marker + FIELD_PATTERN_TAIL@
}

/// The key points of a list: its pieces between commas, each without
/// white space and then without quotes at its ends; none for an empty
/// list.
pub open spec fn key_points_of(list: Seq<char>) -> Seq<Seq<char>> {
    if list.len() == 0 {
        Seq::empty()
    } else {
        let pieces = split(list, ',');
        Seq::new(pieces.len(), |i: int| stripped(trimmed(pieces[i]), '"'))
    }
}

/// The key points of a list.
pub fn key_points(list: &str) -> (r: Vec<String>)
    ensures
        texts(r@) == key_points_of(list@),
{
    let mut points: Vec<String> = Vec::new();
    if list.unicode_len() == 0 {
        assert(texts(points@) =~= Seq::<Seq<char>>::empty());
        return points;
    }
    let pieces = split_char(list, ',');
    let mut i: usize = 0;
    while i < pieces.len()
        invariant
            i <= pieces@.len(),
            points@.len() == i,
            forall|k: int|
                0 <= k < i ==> points@[k]@ == stripped(trimmed(texts(pieces@)[k]), '"'),
        decreases pieces@.len() - i,
    {
        let point = strip_char(trim(pieces[i].as_str()), '"').to_owned();
        points.push(point);
        i += 1;
    }
    assert(texts(points@) =~= key_points_of(list@));
    points
}

/// What a reply says of the next move: whether it asks to terminate, the
/// text of the field `next_marker` where one is asked for, and the key
/// points. All three are read from the first flat JSON object of the
/// reply; a field that is not found reads as empty.
pub fn parse_next_move_and_(input: &str, next_marker: Option<&str>) -> (r: (
    bool,
    Option<String>,
    Vec<String>,
))
    ensures
        ({
            let object = capture_or_empty(FLAT_OBJECT_PATTERN@, input@, 0);
            &&& r.0 == (capture_or_empty(CONTINUE_PATTERN@, object, 1) == "TERMINATE"@)
            &&& crate::text::option_text(r.1) == match next_marker {
                Some(marker) => Some(capture_or_empty(field_pattern(marker@), object, 1)),
                None => None,
            }
            &&& texts(r.2@) == key_points_of(capture_or_empty(KEY_POINTS_PATTERN@, object, 1))
        }),
{
    let json_str = captured(FLAT_OBJECT_PATTERN, input, 0);
    let continue_or_terminate = captured(CONTINUE_PATTERN, json_str.as_str(), 1);
    let next_move = match next_marker {
        Some(marker) => {
            let pattern = join3(FIELD_PATTERN_HEAD, marker, FIELD_PATTERN_TAIL);
            Some(captured(pattern.as_str(), json_str.as_str(), 1))
        },
        None => None,
    };
    let key_points_array = captured(KEY_POINTS_PATTERN, json_str.as_str(), 1);
    let points = key_points(key_points_array.as_str());
    (str_equal(continue_or_terminate.as_str(), "TERMINATE"), next_move, points)
}

/// The texts of a JSON array of strings; `None` for any other value.
pub open spec fn strings_of(tree: JsonTree) -> Option<Seq<Seq<char>>> {
    match tree {
        JsonTree::Array(items) => if forall|i: int|
            0 <= i < items.len() ==> (#[trigger] items[i]) is String {
            Some(Seq::new(items.len(), |i: int| items[i]->String_0))
        } else {
            None
        },
        _ => None,
    }
}

/// The texts of a JSON array of strings.
pub fn strings_from_json(doc: &JsonValue) -> (r: Option<Vec<String>>)
    ensures
        match r {
            Some(list) => strings_of(doc@) == Some(texts(list@)),
            None => strings_of(doc@) is None,
        },
{
    let items = match doc.as_array() {
        Some(items) => items,
        None => {
            return None;
        },
    };
    let ghost trees = doc@->Array_0;
    let mut list: Vec<String> = Vec::new();
    let mut i: usize = 0;
    while i < items.len()
        invariant
            i <= items@.len(),
            doc@ == JsonTree::Array(trees),
            trees == crate::json::items_tree(items@),
            list@.len() == i,
            forall|k: int| 0 <= k < i ==> (#[trigger] trees[k]) == JsonTree::String(list@[k]@),
        decreases items@.len() - i,
    {
        match items[i].as_str() {
            Some(text) => {
                list.push(text.to_owned());
            },
            None => {
                assert(!(trees[i as int] is String));
                return None;
            },
        }
        i += 1;
    }
    assert(strings_of(doc@)->Some_0 =~= texts(list@));
    Some(list)
}

/// The sub-tasks that a text lists: those of the JSON array of strings
/// that the text is; none where it is no such array.
pub open spec fn sub_tasks_of(text: Seq<char>) -> Option<Seq<Seq<char>>> {
    match json_document(text) {
        Some(doc) => strings_of(doc),
        None => None,
    }
}

/// What a planning reply holds: its sub-tasks, the summary of the task,
/// and whether a solution was found.
///
/// A reply without a list of sub-tasks is itself the summary. A list that
/// cannot be read gives no sub-tasks.
pub fn parse_planning_sub_tasks(input: &str) -> (r: (Vec<String>, String, String))
    ensures
        ({
            let list = capture_or_empty(SUB_TASKS_PATTERN@, input@, 1);
            let summary = capture_or_empty(TASK_SUMMARY_PATTERN@, input@, 1);
            &&& r.2@ == capture_or_empty(SOLUTION_FOUND_PATTERN@, input@, 1)
            &&& if list.len() == 0 {
                texts(r.0@) == Seq::<Seq<char>>::empty() && r.1@ == input@
            } else {
                r.1@ == summary && texts(r.0@) == match sub_tasks_of(list) {
                    Some(tasks) => tasks,
                    None => Seq::empty(),
                }
            }
        }),
{
    let sub_tasks_str = captured(SUB_TASKS_PATTERN, input, 1);
    let solution_found = captured(SOLUTION_FOUND_PATTERN, input, 1);
    let none: Vec<String> = Vec::new();
    assert(texts(none@) =~= Seq::<Seq<char>>::empty());
    if sub_tasks_str.as_str().unicode_len() == 0 {
        return (none, input.to_owned(), solution_found);
    }
    let task_summary = captured(TASK_SUMMARY_PATTERN, input, 1);
    let doc = match parse_json(sub_tasks_str.as_str()) {
        Ok(doc) => doc,
        Err(_) => {
            return (none, task_summary, solution_found);
        },
    };
    match strings_from_json(&doc) {
        Some(list) => (list, task_summary, solution_found),
        None => (none, task_summary, solution_found),
    }
}

} // verus!
