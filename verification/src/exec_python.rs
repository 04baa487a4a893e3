//! Cutting code out of a reply: the fenced blocks of a text, and the
//! Python program that its blocks make up.

use crate::pattern::Groups;
use crate::pattern::all_matches;
use crate::pattern::group;
use crate::pattern::group_text;
use crate::pattern::regex_all_matches;
use crate::pattern::regex_compiles;
use crate::text::option_text;
use crate::text::trim;
use crate::text::trimmed;
use vstd::prelude::*;

verus! {

/// Finds a fenced block of Python.
pub const PYTHON_BLOCK_PATTERN: &'static str = r"(?s)```python(.*?)```";

/// Finds a fenced block with an optional language.
pub const FENCED_BLOCK_PATTERN: &'static str = r"```[ \t]*(\w+)?[ \t]*\r?\n(.*?)\r?\n[ \t]*```";

/// Finds code between single backticks.
pub const INLINE_CODE_PATTERN: &'static str = r"`([^`]+)`";

/// Every match of `pattern` in `haystack`, in order; none where the
/// pattern is none.
pub open spec fn matches_of(pattern: Seq<char>, haystack: Seq<char>) -> Seq<
    Seq<Option<Seq<char>>>,
> {
    if regex_compiles(pattern) {
        regex_all_matches(pattern, haystack)
    } else {
        Seq::empty()
    }
}

/// Every match of `pattern` in `haystack`, in order.
pub fn find_all(pattern: &str, haystack: &str) -> (found: Vec<Groups>)
    ensures
        crate::pattern::matches_view(found@) == matches_of(pattern@, haystack@),
{
    match all_matches(pattern, haystack) {
        Ok(found) => found,
        Err(_) => {
            let none: Vec<Groups> = Vec::new();
            assert(crate::pattern::matches_view(none@) =~= Seq::<
                Seq<Option<Seq<char>>>,
            >::empty());
            none
        },
    }
}

/// The trimmed texts of group 1 of the matches, one after the other; a
/// match without the group adds nothing.
pub open spec fn program_of(found: Seq<Seq<Option<Seq<char>>>>) -> Seq<char>
    decreases found.len(),
{
    if found.len() == 0 {
        Seq::empty()
    } else {
        program_of(found.drop_last()) + match group_text(found.last(), 1) {
            Some(code) => trimmed(code),
            None => Seq::empty(),
        }
    }
}

/// The program that the given matches make up.
pub fn join_code(found: &Vec<Groups>) -> (program: String)
    ensures
        program@ == program_of(crate::pattern::matches_view(found@)),
{
    let ghost all = crate::pattern::matches_view(found@);
    let mut program = String::new();
    let mut i: usize = 0;
    assert(all.take(0) =~= Seq::<Seq<Option<Seq<char>>>>::empty());
    while i < found.len()
        invariant
            i <= found@.len(),
            all == crate::pattern::matches_view(found@),
            program@ == program_of(all.take(i as int)),
        decreases found@.len() - i,
    {
        assert(all.take(i + 1).drop_last() =~= all.take(i as int));
        assert(all.take(i + 1).last() == crate::pattern::groups_view(found@[i as int]@));
        match group(&found[i], 1) {
            Some(code) => {
                program.append(trim(code.as_str()));
            },
            None => {
                assert(program@ + Seq::<char>::empty() =~= program@);
            },
        }
        i += 1;
    }
    assert(all.take(i as int) =~= all);
    program
}

/// The Python program of a text: the contents of its fenced Python
/// blocks, each trimmed, one after the other.
pub fn extract_code(text: &str) -> (program: String)
    ensures
        program@ == program_of(matches_of(PYTHON_BLOCK_PATTERN@, text@)),
{
    let found = find_all(PYTHON_BLOCK_PATTERN, text);
    join_code(&found)
}

/// The text of a group, trimmed; the empty text for a group that took no
/// part.
pub open spec fn trimmed_group(groups: Seq<Option<Seq<char>>>, index: int) -> Seq<char> {
    match group_text(groups, index) {
        Some(code) => trimmed(code),
        None => Seq::empty(),
    }
}

/// The fenced blocks that the given matches hold: the language of each
/// where it names one, and its code, both trimmed.
pub open spec fn fenced_blocks(found: Seq<Seq<Option<Seq<char>>>>) -> Seq<
    (Option<Seq<char>>, Seq<char>),
> {
    Seq::new(
        found.len(),
        |i: int|
            (
                match group_text(found[i], 1) {
                    Some(language) => Some(trimmed(language)),
                    None => None,
                },
                trimmed_group(found[i], 2),
            ),
    )
}

/// The inline codes that the given matches hold, trimmed, without a
/// language.
pub open spec fn inline_codes(found: Seq<Seq<Option<Seq<char>>>>) -> Seq<
    (Option<Seq<char>>, Seq<char>),
> {
    Seq::new(found.len(), |i: int| (None::<Seq<char>>, trimmed_group(found[i], 1)))
}

/// The texts of a list of blocks.
pub open spec fn blocks_view(blocks: Seq<(Option<String>, String)>) -> Seq<
    (Option<Seq<char>>, Seq<char>),
> {
    Seq::new(blocks.len(), |i: int| (option_text(blocks[i].0), blocks[i].1@))
}

/// The text of a group, trimmed.
pub fn trimmed_text(groups: &Groups, index: usize) -> (text: String)
    ensures
        text@ == trimmed_group(crate::pattern::groups_view(groups@), index as int),
{
    match group(groups, index) {
        Some(code) => trim(code.as_str()).to_owned(),
        None => String::new(),
    }
}

/// The code blocks of a text, in the order in which they occur: first the
/// fenced blocks, each with its language where it names one; then, where
/// `detect_single_line_code` asks for them, the codes between single
/// backticks.
pub fn extract_code_blocks(text: &str, detect_single_line_code: bool) -> (results: Vec<
    (Option<String>, String),
>)
    ensures
        blocks_view(results@) == fenced_blocks(matches_of(FENCED_BLOCK_PATTERN@, text@)) + (
        if detect_single_line_code {
            inline_codes(matches_of(INLINE_CODE_PATTERN@, text@))
        } else {
            Seq::empty()
        }),
{
    let mut results: Vec<(Option<String>, String)> = Vec::new();
    let fenced = find_all(FENCED_BLOCK_PATTERN, text);
    let ghost fenced_view = crate::pattern::matches_view(fenced@);
    let mut i: usize = 0;
    while i < fenced.len()
        invariant
            i <= fenced@.len(),
            fenced_view == crate::pattern::matches_view(fenced@),
            blocks_view(results@) == fenced_blocks(fenced_view).take(i as int),
        decreases fenced@.len() - i,
    {
        let ghost before = blocks_view(results@);
        let language = match group(&fenced[i], 1) {
            Some(language) => Some(trim(language.as_str()).to_owned()),
            None => None,
        };
        let code = trimmed_text(&fenced[i], 2);
        results.push((language, code));
        assert(blocks_view(results@) =~= before.push((option_text(language), code@)));
        assert(fenced_blocks(fenced_view).take(i + 1) =~= fenced_blocks(fenced_view).take(
            i as int,
        ).push(fenced_blocks(fenced_view)[i as int]));
        i += 1;
    }
    assert(fenced_blocks(fenced_view).take(i as int) =~= fenced_blocks(fenced_view));
    if detect_single_line_code {
        let inline = find_all(INLINE_CODE_PATTERN, text);
        let ghost inline_view = crate::pattern::matches_view(inline@);
        let ghost head = fenced_blocks(fenced_view);
        let mut k: usize = 0;
        assert(head + inline_codes(inline_view).take(0) =~= head);
        while k < inline.len()
            invariant
                k <= inline@.len(),
                inline_view == crate::pattern::matches_view(inline@),
                blocks_view(results@) == head + inline_codes(inline_view).take(k as int),
            decreases inline@.len() - k,
        {
            let ghost before = blocks_view(results@);
            let code = trimmed_text(&inline[k], 1);
            results.push((None, code));
            assert(blocks_view(results@) =~= before.push((None::<Seq<char>>, code@)));
            assert(inline_codes(inline_view).take(k + 1) =~= inline_codes(inline_view).take(
                k as int,
            ).push(inline_codes(inline_view)[k as int]));
            assert(head + inline_codes(inline_view).take(k + 1) =~= (head + inline_codes(
                inline_view,
            ).take(k as int)).push(inline_codes(inline_view)[k as int]));
            k += 1;
        }
        assert(inline_codes(inline_view).take(k as int) =~= inline_codes(inline_view));
    } else {
        assert(fenced_blocks(fenced_view) + Seq::<(Option<Seq<char>>, Seq<char>)>::empty()
            =~= fenced_blocks(fenced_view));
    }
    results
}

} // verus!
