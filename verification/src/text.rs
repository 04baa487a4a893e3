//! Text as sequences of characters: white space, trimming, prefixes,
//! suffixes and substring search, each stated over `Seq<char>`.

use vstd::prelude::*;

verus! {

/// The characters that Unicode gives the property `White_Space`.
pub open spec fn is_whitespace(c: char) -> bool {
    let n = c as u32;
    (0x09 <= n <= 0x0D) || n == 0x20 || n == 0x85 || n == 0xA0 || n == 0x1680 || (0x2000 <= n
        <= 0x200A) || n == 0x2028 || n == 0x2029 || n == 0x202F || n == 0x205F || n == 0x3000
}

/// `s` without its leading white space.
pub open spec fn trim_start(s: Seq<char>) -> Seq<char>
    decreases s.len(),
{
    if s.len() > 0 && is_whitespace(s[0]) {
        trim_start(s.drop_first())
    } else {
        s
    }
}

/// `s` without its trailing white space.
pub open spec fn trim_end(s: Seq<char>) -> Seq<char>
    decreases s.len(),
{
    if s.len() > 0 && is_whitespace(s.last()) {
        trim_end(s.drop_last())
    } else {
        s
    }
}

/// `s` without leading and trailing white space.
pub open spec fn trimmed(s: Seq<char>) -> Seq<char> {
    trim_end(trim_start(s))
}

/// `needle` occurs in `s` at position `at`.
pub open spec fn occurs_at(s: Seq<char>, needle: Seq<char>, at: int) -> bool {
    0 <= at && at + needle.len() <= s.len() && s.subrange(at, at + needle.len()) == needle
}

/// `needle` occurs somewhere in `s`.
pub open spec fn contains(s: Seq<char>, needle: Seq<char>) -> bool {
    exists|at: int| occurs_at(s, needle, at)
}

/// Skipping white space at the front does not change what `trim_start` gives.
pub proof fn lemma_trim_start_skip(s: Seq<char>, n: int)
    requires
        0 <= n <= s.len(),
        forall|k: int| 0 <= k < n ==> is_whitespace(s[k]),
    ensures
        trim_start(s) == trim_start(s.skip(n)),
    decreases n,
{
    if n == 0 {
        assert(s.skip(0) =~= s);
    } else {
        assert(s.drop_first().skip(n - 1) =~= s.skip(n));
        lemma_trim_start_skip(s.drop_first(), n - 1);
    }
}

/// Dropping white space at the back does not change what `trim_end` gives.
pub proof fn lemma_trim_end_take(s: Seq<char>, n: int)
    requires
        0 <= n <= s.len(),
        forall|k: int| n <= k < s.len() ==> is_whitespace(s[k]),
    ensures
        trim_end(s) == trim_end(s.take(n)),
    decreases s.len() - n,
{
    if n == s.len() {
        assert(s.take(n) =~= s);
    } else {
        assert(s.drop_last().take(n) =~= s.take(n));
        lemma_trim_end_take(s.drop_last(), n);
    }
}

/// A text that neither starts nor ends with white space is its own trim.
pub proof fn lemma_trimmed_fixed(s: Seq<char>)
    requires
        s.len() == 0 || (!is_whitespace(s[0]) && !is_whitespace(s.last())),
    ensures
        trimmed(s) == s,
{
}

/// The characters of a string slice, in order.
pub fn chars_of(s: &str) -> (v: Vec<char>)
    ensures
        v@ == s@,
{
    let mut v: Vec<char> = Vec::new();
    for c in it: s.chars()
        invariant
            it.seq() == s@,
            v@ =~= it.seq().take(it.index() as int),
    {
        v.push(c);
    }
    v
}

/// Whether `c` is white space.
pub fn char_is_whitespace(c: char) -> (r: bool)
    ensures
        r == is_whitespace(c),
{
    let n: u32 = c as u32;
    (0x09 <= n && n <= 0x0D) || n == 0x20 || n == 0x85 || n == 0xA0 || n == 0x1680 || (0x2000
        <= n && n <= 0x200A) || n == 0x2028 || n == 0x2029 || n == 0x202F || n == 0x205F || n
        == 0x3000
}

/// Whether two string slices hold the same characters.
pub fn str_equal(a: &str, b: &str) -> (r: bool)
    ensures
        r == (a@ == b@),
{
    let x = a.to_owned();
    let y = b.to_owned();
    x == y
}

/// The slice of `s` without leading and trailing white space.
pub fn trim(s: &str) -> (r: &str)
    ensures
        r@ == trimmed(s@),
{
    let v = chars_of(s);
    let n = v.len();
    let mut start: usize = 0;
    while start < n && char_is_whitespace(v[start])
        invariant
            v@ == s@,
            n == v@.len(),
            start <= n,
            forall|k: int| 0 <= k < start ==> is_whitespace(v@[k]),
        decreases n - start,
    {
        start += 1;
    }
    let mut end: usize = n;
    while end > start && char_is_whitespace(v[end - 1])
        invariant
            v@ == s@,
            n == v@.len(),
            start <= end <= n,
            forall|k: int| end <= k < n ==> is_whitespace(v@[k]),
        decreases end,
    {
        end -= 1;
    }
    proof {
        let rest = s@.skip(start as int);
        lemma_trim_start_skip(s@, start as int);
        assert(trim_start(s@) == rest) by {
            assert(trim_start(rest) == rest);
        }
        let kept = end - start;
        assert forall|k: int| kept <= k < rest.len() implies is_whitespace(rest[k]) by {
            assert(rest[k] == v@[k + start]);
        }
        lemma_trim_end_take(rest, kept);
        assert(rest.take(kept) =~= s@.subrange(start as int, end as int));
        assert(trim_end(rest.take(kept)) == rest.take(kept)) by {
            if kept > 0 {
                assert(rest.take(kept).last() == v@[end - 1]);
            }
        }
    }
    s.substring_char(start, end)
}

/// Whether `s` begins with `prefix`.
pub fn starts_with(s: &Vec<char>, prefix: &Vec<char>) -> (r: bool)
    ensures
        r == prefix@.is_prefix_of(s@),
{
    if prefix.len() > s.len() {
        return false;
    }
    let mut i: usize = 0;
    while i < prefix.len()
        invariant
            i <= prefix@.len() <= s@.len(),
            forall|k: int| 0 <= k < i ==> s@[k] == prefix@[k],
        decreases prefix@.len() - i,
    {
        if s[i] != prefix[i] {
            assert(!prefix@.is_prefix_of(s@)) by {
                if prefix@.is_prefix_of(s@) {
                    assert(s@.subrange(0, prefix@.len() as int)[i as int] == prefix@[i as int]);
                }
            }
            return false;
        }
        i += 1;
    }
    assert(s@.subrange(0, prefix@.len() as int) =~= prefix@);
    true
}

/// Whether `s` ends with `suffix`.
pub fn ends_with(s: &Vec<char>, suffix: &Vec<char>) -> (r: bool)
    ensures
        r == suffix@.is_suffix_of(s@),
{
    if suffix.len() > s.len() {
        return false;
    }
    let shift = s.len() - suffix.len();
    let mut i: usize = 0;
    while i < suffix.len()
        invariant
            i <= suffix@.len() <= s@.len(),
            s@.len() <= usize::MAX,
            shift == s@.len() - suffix@.len(),
            forall|k: int| 0 <= k < i ==> s@[shift + k] == suffix@[k],
        decreases suffix@.len() - i,
    {
        if s[shift + i] != suffix[i] {
            assert(!suffix@.is_suffix_of(s@)) by {
                if suffix@.is_suffix_of(s@) {
                    assert(s@.subrange(shift as int, s@.len() as int)[i as int] == suffix@[i as int]);
                }
            }
            return false;
        }
        i += 1;
    }
    assert(s@.subrange(shift as int, s@.len() as int) =~= suffix@);
    true
}

/// Whether `needle` occurs in `s` at position `at`.
pub fn matches_at(s: &Vec<char>, needle: &Vec<char>, at: usize) -> (r: bool)
    ensures
        r == occurs_at(s@, needle@, at as int),
{
    if needle.len() > s.len() || at > s.len() - needle.len() {
        return false;
    }
    let mut i: usize = 0;
    while i < needle.len()
        invariant
            i <= needle@.len(),
            s@.len() <= usize::MAX,
            at + needle@.len() <= s@.len(),
            forall|k: int| 0 <= k < i ==> s@[at + k] == needle@[k],
        decreases needle@.len() - i,
    {
        if s[at + i] != needle[i] {
            assert(!occurs_at(s@, needle@, at as int)) by {
                if occurs_at(s@, needle@, at as int) {
                    assert(s@.subrange(at as int, at + needle@.len())[i as int] == needle@[i as int]);
                }
            }
            return false;
        }
        i += 1;
    }
    assert(s@.subrange(at as int, at + needle@.len()) =~= needle@);
    true
}

/// Whether `needle` occurs somewhere in `s`.
pub fn contains_chars(s: &Vec<char>, needle: &Vec<char>) -> (r: bool)
    ensures
        r == contains(s@, needle@),
{
    if needle.len() > s.len() {
        return false;
    }
    let last = s.len() - needle.len();
    let mut at: usize = 0;
    loop
        invariant
            last == s@.len() - needle@.len(),
            at <= last,
            forall|k: int| 0 <= k < at ==> !occurs_at(s@, needle@, k),
        decreases last - at,
    {
        if matches_at(s, needle, at) {
            return true;
        }
        if at == last {
            return false;
        }
        at += 1;
    }
}

/// The text of an optional string.
pub open spec fn option_text(text: Option<String>) -> Option<Seq<char>> {
    match text {
        Some(t) => Some(t@),
        None => None,
    }
}

/// The texts of a list of strings.
pub open spec fn texts(list: Seq<String>) -> Seq<Seq<char>> {
    Seq::new(list.len(), |i: int| list[i]@)
}

/// A copy of an optional string.
pub fn clone_option(text: &Option<String>) -> (r: Option<String>)
    ensures
        option_text(r) == option_text(*text),
{
    match text {
        Some(t) => Some(t.clone()),
        None => None,
    }
}

/// A copy of a list of strings.
pub fn clone_strings(list: &Vec<String>) -> (r: Vec<String>)
    ensures
        texts(r@) == texts(list@),
{
    let mut copy: Vec<String> = Vec::new();
    let mut i: usize = 0;
    while i < list.len()
        invariant
            i <= list@.len(),
            copy@.len() == i,
            forall|k: int| 0 <= k < i ==> copy@[k]@ == list@[k]@,
        decreases list@.len() - i,
    {
        copy.push(list[i].clone());
        i += 1;
    }
    assert(texts(copy@) =~= texts(list@));
    copy
}

/// The text `a` followed by `b`.
pub fn join2(a: &str, b: &str) -> (r: String)
    ensures
        r@ == a@ + b@,
{
    a.to_owned().concat(b)
}

/// The text `a` followed by `b` and `c`.
pub fn join3(a: &str, b: &str, c: &str) -> (r: String)
    ensures
        r@ == a@ + b@ + c@,
{
    a.to_owned().concat(b).concat(c)
}

/// The text `a` followed by `b`, `c` and `d`.
pub fn join4(a: &str, b: &str, c: &str, d: &str) -> (r: String)
    ensures
        r@ == a@ + b@ + c@ + d@,
{
    a.to_owned().concat(b).concat(c).concat(d)
}

/// The text that `Debug` writes for a string: the string in quotes, with
/// its escapes.
pub uninterp spec fn debug_quoted(text: Seq<char>) -> Seq<char>;

/// `Debug` of a string slice, through `format!`.
#[verifier::external_body]
fn format_debug(text: &str) -> (r: String)
    ensures
        r@ == debug_quoted(text@),
{
    format!("{:?}", text)
}

/// The text that `Debug` writes for an optional string.
pub open spec fn debug_option_text(text: Option<Seq<char>>) -> Seq<char> {
    match text {
        Some(t) => "Some("@ + debug_quoted(t) + ")"@,
        None => "None"@,
    }
}

/// What `Debug` writes for an optional string.
pub fn debug_option(text: &Option<String>) -> (r: String)
    ensures
        r@ == debug_option_text(option_text(*text)),
{
    match text {
        Some(t) => {
            let quoted = format_debug(t.as_str());
            join3("Some(", quoted.as_str(), ")")
        },
        None => "None".to_owned(),
    }
}

/// The lower-case form of a text, as `str::to_lowercase` gives it.
pub uninterp spec fn lowercase(text: Seq<char>) -> Seq<char>;

/// `str::to_lowercase`.
#[verifier::external_body]
pub(crate) fn str_to_lowercase(text: &str) -> (r: String)
    ensures
        r@ == lowercase(text@),
{
    text.to_lowercase()
}

/// Whether the lower-case form of `text` holds `needle`.
pub fn lowercase_contains(text: &str, needle: &str) -> (r: bool)
    ensures
        r == contains(lowercase(text@), needle@),
{
    let lower = str_to_lowercase(text);
    let haystack = chars_of(lower.as_str());
    let wanted = chars_of(needle);
    contains_chars(&haystack, &wanted)
}

/// The decimal digits of a number.
pub open spec fn decimal(n: nat) -> Seq<char>
    decreases n,
{
    if n < 10 {
        seq![digit_char(n)]
    } else {
        decimal(n / 10).push(digit_char(n % 10))
    }
}

/// The character of one decimal digit.
pub open spec fn digit_char(d: nat) -> char {
    if d == 0 {
        '0'
    } else if d == 1 {
        '1'
    } else if d == 2 {
        '2'
    } else if d == 3 {
        '3'
    } else if d == 4 {
        '4'
    } else if d == 5 {
        '5'
    } else if d == 6 {
        '6'
    } else if d == 7 {
        '7'
    } else if d == 8 {
        '8'
    } else {
        '9'
    }
}

/// The text of one decimal digit.
pub fn digit_str(d: usize) -> (r: &'static str)
    requires
        d < 10,
    ensures
        r@ == seq![digit_char(d as nat)],
{
    proof {
        reveal_strlit("0");
        reveal_strlit("1");
        reveal_strlit("2");
        reveal_strlit("3");
        reveal_strlit("4");
        reveal_strlit("5");
        reveal_strlit("6");
        reveal_strlit("7");
        reveal_strlit("8");
        reveal_strlit("9");
    }
    let r = if d == 0 {
        "0"
    } else if d == 1 {
        "1"
    } else if d == 2 {
        "2"
    } else if d == 3 {
        "3"
    } else if d == 4 {
        "4"
    } else if d == 5 {
        "5"
    } else if d == 6 {
        "6"
    } else if d == 7 {
        "7"
    } else if d == 8 {
        "8"
    } else {
        "9"
    };
    assert(r@ =~= seq![digit_char(d as nat)]);
    r
}

/// A number in decimal digits.
pub fn decimal_string(n: usize) -> (r: String)
    ensures
        r@ == decimal(n as nat),
    decreases n,
{
    if n < 10 {
        digit_str(n).to_owned()
    } else {
        let head = decimal_string(n / 10);
        let r = head.concat(digit_str(n % 10));
        assert(r@ =~= decimal(n as nat));
        r
    }
}

/// `s` without the characters `c` at its front.
pub open spec fn strip_start(s: Seq<char>, c: char) -> Seq<char>
    decreases s.len(),
{
    if s.len() > 0 && s[0] == c {
        strip_start(s.drop_first(), c)
    } else {
        s
    }
}

/// `s` without the characters `c` at its back.
pub open spec fn strip_end(s: Seq<char>, c: char) -> Seq<char>
    decreases s.len(),
{
    if s.len() > 0 && s.last() == c {
        strip_end(s.drop_last(), c)
    } else {
        s
    }
}

/// `s` without the characters `c` at both ends.
pub open spec fn stripped(s: Seq<char>, c: char) -> Seq<char> {
    strip_end(strip_start(s, c), c)
}

/// Skipping the characters `c` at the front does not change what
/// `strip_start` gives.
pub proof fn lemma_strip_start_skip(s: Seq<char>, c: char, n: int)
    requires
        0 <= n <= s.len(),
        forall|k: int| 0 <= k < n ==> s[k] == c,
    ensures
        strip_start(s, c) == strip_start(s.skip(n), c),
    decreases n,
{
    if n == 0 {
        assert(s.skip(0) =~= s);
    } else {
        assert(s.drop_first().skip(n - 1) =~= s.skip(n));
        lemma_strip_start_skip(s.drop_first(), c, n - 1);
    }
}

/// Dropping the characters `c` at the back does not change what
/// `strip_end` gives.
pub proof fn lemma_strip_end_take(s: Seq<char>, c: char, n: int)
    requires
        0 <= n <= s.len(),
        forall|k: int| n <= k < s.len() ==> s[k] == c,
    ensures
        strip_end(s, c) == strip_end(s.take(n), c),
    decreases s.len() - n,
{
    if n == s.len() {
        assert(s.take(n) =~= s);
    } else {
        assert(s.drop_last().take(n) =~= s.take(n));
        lemma_strip_end_take(s.drop_last(), c, n);
    }
}

/// The slice of `s` without the characters `c` at both ends.
pub fn strip_char(s: &str, c: char) -> (r: &str)
    ensures
        r@ == stripped(s@, c),
{
    let v = chars_of(s);
    let n = v.len();
    let mut start: usize = 0;
    while start < n && v[start] == c
        invariant
            v@ == s@,
            n == v@.len(),
            start <= n,
            forall|k: int| 0 <= k < start ==> v@[k] == c,
        decreases n - start,
    {
        start += 1;
    }
    let mut end: usize = n;
    while end > start && v[end - 1] == c
        invariant
            v@ == s@,
            n == v@.len(),
            start <= end <= n,
            forall|k: int| end <= k < n ==> v@[k] == c,
        decreases end,
    {
        end -= 1;
    }
    proof {
        let rest = s@.skip(start as int);
        lemma_strip_start_skip(s@, c, start as int);
        assert(strip_start(s@, c) == rest) by {
            assert(strip_start(rest, c) == rest);
        }
        let kept = end - start;
        assert forall|k: int| kept <= k < rest.len() implies rest[k] == c by {
            assert(rest[k] == v@[k + start]);
        }
        lemma_strip_end_take(rest, c, kept);
        assert(rest.take(kept) =~= s@.subrange(start as int, end as int));
        assert(strip_end(rest.take(kept), c) == rest.take(kept)) by {
            if kept > 0 {
                assert(rest.take(kept).last() == v@[end - 1]);
            }
        }
    }
    s.substring_char(start, end)
}

/// The pieces of the first `upto` characters of `s` that end at a
/// separator, in order.
pub open spec fn split_pieces(s: Seq<char>, sep: char, upto: int) -> Seq<Seq<char>>
    decreases upto,
{
    if upto <= 0 || upto > s.len() {
        Seq::empty()
    } else if s[upto - 1] == sep {
        split_pieces(s, sep, upto - 1).push(s.subrange(piece_start(s, sep, upto - 1), upto - 1))
    } else {
        split_pieces(s, sep, upto - 1)
    }
}

/// Where the piece begins that holds position `at`: behind the last
/// separator before `at`.
pub open spec fn piece_start(s: Seq<char>, sep: char, at: int) -> int
    decreases at,
{
    if at <= 0 || at > s.len() {
        0
    } else if s[at - 1] == sep {
        at
    } else {
        piece_start(s, sep, at - 1)
    }
}

/// The pieces of `s` between the separators `sep`, in order: one more
/// than there are separators, the piece after the last separator last.
pub open spec fn split(s: Seq<char>, sep: char) -> Seq<Seq<char>> {
    split_pieces(s, sep, s.len() as int).push(
        s.subrange(piece_start(s, sep, s.len() as int), s.len() as int),
    )
}

/// The pieces of `s` between the separators `sep`.
pub fn split_char(s: &str, sep: char) -> (r: Vec<String>)
    ensures
        texts(r@) == split(s@, sep),
{
    let v = chars_of(s);
    let n = v.len();
    let mut pieces: Vec<String> = Vec::new();
    let mut start: usize = 0;
    let mut i: usize = 0;
    assert(texts(pieces@) =~= split_pieces(s@, sep, 0));
    while i < n
        invariant
            v@ == s@,
            n == v@.len(),
            start <= i <= n,
            start == piece_start(s@, sep, i as int),
            texts(pieces@) == split_pieces(s@, sep, i as int),
        decreases n - i,
    {
        let ghost before = texts(pieces@);
        if v[i] == sep {
            let piece = s.substring_char(start, i).to_owned();
            pieces.push(piece);
            assert(texts(pieces@) =~= before.push(s@.subrange(start as int, i as int)));
            start = i + 1;
        }
        i += 1;
    }
    let ghost before = texts(pieces@);
    let last = s.substring_char(start, n).to_owned();
    pieces.push(last);
    assert(texts(pieces@) =~= before.push(s@.subrange(start as int, n as int)));
    pieces
}

/// The pieces of `s` between the separators `sep`, each without white
/// space around it.
pub open spec fn trimmed_pieces_of(s: Seq<char>, sep: char) -> Seq<Seq<char>> {
    let pieces = split(s, sep);
    Seq::new(pieces.len(), |i: int| trimmed(pieces[i]))
}

/// The texts of `pieces` that are not empty, in their order.
pub open spec fn non_empty(pieces: Seq<Seq<char>>) -> Seq<Seq<char>>
    decreases pieces.len(),
{
    if pieces.len() == 0 {
        pieces
    } else if pieces.last().len() == 0 {
        non_empty(pieces.drop_last())
    } else {
        non_empty(pieces.drop_last()).push(pieces.last())
    }
}

/// The items of a list written with commas: the pieces of `s` between
/// the commas, each without white space around it, the empty ones left
/// out.
pub open spec fn list_items_of(s: Seq<char>) -> Seq<Seq<char>> {
    non_empty(trimmed_pieces_of(s, ','))
}

/// The pieces of `s` between the separators `sep`, each without white
/// space around it.
pub fn trimmed_pieces(s: &str, sep: char) -> (r: Vec<String>)
    ensures
        texts(r@) == trimmed_pieces_of(s@, sep),
{
    let pieces = split_char(s, sep);
    let mut trimmed_list: Vec<String> = Vec::new();
    let mut i: usize = 0;
    while i < pieces.len()
        invariant
            i <= pieces@.len(),
            trimmed_list@.len() == i,
            forall|k: int| 0 <= k < i ==> trimmed_list@[k]@ == trimmed(texts(pieces@)[k]),
        decreases pieces@.len() - i,
    {
        trimmed_list.push(trim(pieces[i].as_str()).to_owned());
        i += 1;
    }
    assert(texts(trimmed_list@) =~= trimmed_pieces_of(s@, sep));
    trimmed_list
}

/// The items of a list written with commas.
pub fn list_items(s: &str) -> (r: Vec<String>)
    ensures
        texts(r@) == list_items_of(s@),
{
    let pieces = trimmed_pieces(s, ',');
    let ghost all = texts(pieces@);
    let mut items: Vec<String> = Vec::new();
    let mut i: usize = 0;
    assert(all.take(0) =~= Seq::<Seq<char>>::empty());
    assert(texts(items@) =~= Seq::<Seq<char>>::empty());
    while i < pieces.len()
        invariant
            i <= pieces@.len(),
            all == texts(pieces@),
            texts(items@) == non_empty(all.take(i as int)),
        decreases pieces@.len() - i,
    {
        let ghost before = texts(items@);
        assert(all.take(i + 1).drop_last() =~= all.take(i as int));
        assert(all.take(i + 1).last() == pieces@[i as int]@);
        if pieces[i].as_str().unicode_len() > 0 {
            items.push(pieces[i].clone());
            assert(texts(items@) =~= before.push(pieces@[i as int]@));
        }
        i += 1;
    }
    assert(all.take(i as int) =~= all);
    items
}

} // verus!
