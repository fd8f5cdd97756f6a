//! Text operations with exact meanings over sequences of characters.
use vstd::prelude::*;

verus! {

/// `part` stands in `whole` at position `at`.
pub open spec fn occurs_at(whole: Seq<char>, part: Seq<char>, at: int) -> bool {
    &&& 0 <= at
    &&& at + part.len() <= whole.len()
    &&& whole.subrange(at, at + part.len()) == part
}

/// `part` stands somewhere in `whole`.
pub open spec fn occurs_in(whole: Seq<char>, part: Seq<char>) -> bool {
    exists|at: int| occurs_at(whole, part, at)
}

/// `at` is the leftmost position of `part` in `whole`.
pub open spec fn first_occurs_at(whole: Seq<char>, part: Seq<char>, at: int) -> bool {
    &&& occurs_at(whole, part, at)
    &&& forall|earlier: int| earlier < at ==> !occurs_at(whole, part, earlier)
}

/// What stands in `whole` before the first `separator`: all of `whole` where
/// there is none.
pub open spec fn before_first(whole: Seq<char>, separator: Seq<char>) -> Seq<char> {
    if occurs_in(whole, separator) {
        whole.take(choose|at: int| first_occurs_at(whole, separator, at))
    } else {
        whole
    }
}

/// The lower-case form of an ASCII letter; every other character is its own.
pub open spec fn ascii_lower(c: char) -> char {
    if 'A' <= c <= 'Z' {
        ((c as u32) + 32) as char
    } else {
        c
    }
}

/// `whole` starts with `prefix`, upper and lower case ASCII letters of `whole`
/// being the same.
pub open spec fn has_prefix_ignoring_case(whole: Seq<char>, prefix: Seq<char>) -> bool {
    &&& prefix.len() <= whole.len()
    &&& forall|i: int| 0 <= i < prefix.len() ==> ascii_lower(#[trigger] whole[i]) == prefix[i]
}

/// The decimal digit for a number below ten.
pub open spec fn digit(n: nat) -> char {
    if n == 0 { '0' }
    else if n == 1 { '1' }
    else if n == 2 { '2' }
    else if n == 3 { '3' }
    else if n == 4 { '4' }
    else if n == 5 { '5' }
    else if n == 6 { '6' }
    else if n == 7 { '7' }
    else if n == 8 { '8' }
    else { '9' }
}

/// A number written in decimal, without leading zeros.
pub open spec fn decimal(n: nat) -> Seq<char>
    decreases n,
{
    if n < 10 {
        seq![digit(n)]
    } else {
        decimal(n / 10).push(digit(n % 10))
    }
}

/// There is at most one first occurrence, and there is one where there is any.
pub proof fn lemma_first_occurrence(whole: Seq<char>, part: Seq<char>, at: int)
    requires
        first_occurs_at(whole, part, at),
    ensures
        occurs_in(whole, part),
        before_first(whole, part) == whole.take(at),
{
    let chosen = choose|i: int| first_occurs_at(whole, part, i);
    assert(first_occurs_at(whole, part, chosen));
    assert(!(chosen < at));
    assert(!(at < chosen));
}

/// Whether two strings hold the same characters.
pub fn same_text(a: &str, b: &str) -> (same: bool)
    ensures
        same == (a@ == b@),
{
    a.to_owned() == b.to_owned()
}

/// Two pieces of text, one after the other.
pub fn join(first: &str, second: &str) -> (joined: String)
    ensures
        joined@ == first@ + second@,
{
    let mut joined: String = first.to_owned();
    joined.append(second);
    joined
}

/// The characters of a string, in order.
pub fn characters(s: &str) -> (chars: Vec<char>)
    ensures
        chars@ == s@,
{
    let mut chars: Vec<char> = Vec::new();
    for c in it: s.chars()
        invariant
            chars@ == it.seq().take(it.index()),
            it.seq() == s@,
    {
        chars.push(c);
    }
    chars
}

/// Whether `part` stands in `whole` at position `at`.
fn stands_at(whole: &Vec<char>, part: &Vec<char>, at: usize) -> (found: bool)
    ensures
        found == occurs_at(whole@, part@, at as int),
{
    if part.len() > whole.len() || at > whole.len() - part.len() {
        return false;
    }
    let mut i: usize = 0;
    while i < part.len()
        invariant
            i <= part.len(),
            at + part.len() <= whole.len(),
            forall|j: int| 0 <= j < i ==> whole[at + j] == part[j],
        decreases part.len() - i,
    {
        if whole[at + i] != part[i] {
            assert(whole@.subrange(at as int, at + part@.len())[i as int] == whole@[at + i]);
            return false;
        }
        i += 1;
    }
    assert(whole@.subrange(at as int, at + part@.len()) =~= part@);
    true
}

/// The leftmost position of `part` in `whole`, if it stands there at all.
pub fn find(whole: &str, part: &str) -> (position: Option<usize>)
    ensures
        match position {
            Some(at) => first_occurs_at(whole@, part@, at as int),
            None => !occurs_in(whole@, part@),
        },
{
    let whole_chars: Vec<char> = characters(whole);
    let part_chars: Vec<char> = characters(part);
    let mut at: usize = 0;
    while at < whole_chars.len()
        invariant
            whole_chars@ == whole@,
            part_chars@ == part@,
            at <= whole_chars.len(),
            forall|earlier: int| earlier < at ==> !occurs_at(whole@, part@, earlier),
        decreases whole_chars.len() - at,
    {
        if stands_at(&whole_chars, &part_chars, at) {
            return Some(at);
        }
        at += 1;
    }
    if stands_at(&whole_chars, &part_chars, at) {
        return Some(at);
    }
    None
}

/// What stands in `whole` before the first `separator`.
pub fn text_before(whole: &str, separator: &str) -> (head: String)
    ensures
        head@ == before_first(whole@, separator@),
{
    match find(whole, separator) {
        Some(at) => {
            proof {
                lemma_first_occurrence(whole@, separator@, at as int);
            }
            whole.substring_char(0, at).to_owned()
        },
        None => whole.to_owned(),
    }
}

/// Whether `whole` starts with `prefix`, ASCII letters of `whole` in either case.
pub fn starts_with_ignoring_case(whole: &str, prefix: &str) -> (starts: bool)
    ensures
        starts == has_prefix_ignoring_case(whole@, prefix@),
{
    let whole_chars: Vec<char> = characters(whole);
    let prefix_chars: Vec<char> = characters(prefix);
    if prefix_chars.len() > whole_chars.len() {
        return false;
    }
    let mut i: usize = 0;
    while i < prefix_chars.len()
        invariant
            whole_chars@ == whole@,
            prefix_chars@ == prefix@,
            i <= prefix_chars.len() <= whole_chars.len(),
            forall|j: int| 0 <= j < i ==> ascii_lower(#[trigger] whole@[j]) == prefix@[j],
        decreases prefix_chars.len() - i,
    {
        if to_ascii_lower(whole_chars[i]) != prefix_chars[i] {
            assert(ascii_lower(whole@[i as int]) != prefix@[i as int]);
            return false;
        }
        i += 1;
    }
    true
}

/// The lower-case form of an ASCII letter; every other character unchanged.
fn to_ascii_lower(c: char) -> (lower: char)
    ensures
        lower == ascii_lower(c),
{
    if 'A' <= c && c <= 'Z' {
        ((c as u8) + 32) as char
    } else {
        c
    }
}

/// A number in decimal.
pub fn decimal_text(n: u64) -> (text: String)
    ensures
        text@ == decimal(n as nat),
    decreases n,
{
    let last: &str = digit_text(n % 10);
    if n < 10 {
        last.to_owned()
    } else {
        let mut text: String = decimal_text(n / 10);
        text.append(last);
        text
    }
}

/// One decimal digit.
fn digit_text(n: u64) -> (text: &'static str)
    requires
        n < 10,
    ensures
        text@ == seq![digit(n as nat)],
{
    proof {
        reveal_strlit("0");
        reveal_strlit("1");
        reveal_strlit("2");
        reveal_strlit("3");
        reveal_strlit("4");
        reveal_strlit("5");
        reveal_strlit("6");
        reveal_strlit("7");
        reveal_strlit("8");
        reveal_strlit("9");
    }
    if n == 0 { "0" }
    else if n == 1 { "1" }
    else if n == 2 { "2" }
    else if n == 3 { "3" }
    else if n == 4 { "4" }
    else if n == 5 { "5" }
    else if n == 6 { "6" }
    else if n == 7 { "7" }
    else if n == 8 { "8" }
    else { "9" }
}

// ── what the operations keep to ──────────────────────────────────────────────

/// A number below ten is written as its digit. Ten times a number and a digit more
/// is written as the number followed by the digit.
pub proof fn law_numbers_are_written_in_decimal(tens: nat, ones: nat)
    requires
        ones < 10,
    ensures
        decimal(ones) == seq![('0' as int + ones) as char],
        tens > 0 ==> decimal(tens * 10 + ones) == decimal(tens).push(
            ('0' as int + ones) as char,
        ),
{
    let number = tens * 10 + ones;
    assert(number / 10 == tens && number % 10 == ones);
    assert(digit(ones) == ('0' as int + ones) as char);
}

/// What stands before a separator is all that comes before its first occurrence.
pub proof fn law_text_before_the_first_separator(
    head: Seq<char>,
    separator: Seq<char>,
    tail: Seq<char>,
)
    requires
        forall|i: int|
            0 <= i < head.len() ==> #[trigger] (head + separator + tail).subrange(
                i,
                i + separator.len(),
            ) != separator || i + separator.len() > (head + separator + tail).len(),
    ensures
        before_first(head + separator + tail, separator) == head,
{
    let whole = head + separator + tail;
    let at = head.len() as int;
    assert(whole.subrange(at, at + separator.len()) =~= separator);
    assert(occurs_at(whole, separator, at));
    lemma_first_occurrence(whole, separator, at);
    assert(whole.take(at) =~= head);
}

/// Without a separator, everything stands before it.
pub proof fn law_text_without_a_separator(whole: Seq<char>, separator: Seq<char>)
    requires
        forall|i: int|
            0 <= i <= whole.len() - separator.len() ==> #[trigger] whole.subrange(
                i,
                i + separator.len(),
            ) != separator,
    ensures
        before_first(whole, separator) == whole,
{
}

/// A text stands in another at a position where each of its characters does.
pub proof fn law_occurrence_is_character_by_character(
    whole: Seq<char>,
    part: Seq<char>,
    at: int,
)
    ensures
        occurs_at(whole, part, at) <==> 0 <= at && at + part.len() <= whole.len() && forall|i: int|
            0 <= i < part.len() ==> whole[at + i] == #[trigger] part[i],
        first_occurs_at(whole, part, at) <==> occurs_at(whole, part, at) && forall|earlier: int|
            earlier < at ==> !#[trigger] occurs_at(whole, part, earlier),
{
    if 0 <= at && at + part.len() <= whole.len() {
        let there = whole.subrange(at, at + part.len());
        assert(forall|i: int| 0 <= i < part.len() ==> #[trigger] there[i] == whole[at + i]);
        if forall|i: int| 0 <= i < part.len() ==> whole[at + i] == #[trigger] part[i] {
            assert(there =~= part);
        }
    }
}

/// A text starts with a prefix where each character is that of the prefix, or the
/// capital of it.
pub proof fn law_prefix_is_in_either_case(whole: Seq<char>, prefix: Seq<char>)
    ensures
        has_prefix_ignoring_case(whole, prefix) <==> prefix.len() <= whole.len() && forall|i: int|
            0 <= i < prefix.len() ==> if 'A' <= #[trigger] whole[i] <= 'Z' {
                prefix[i] as int == whole[i] as int + 32
            } else {
                prefix[i] == whole[i]
            },
{
    assert forall|i: int| 0 <= i < whole.len() && 'A' <= #[trigger] whole[i] <= 'Z' implies (
    ascii_lower(whole[i])) as int == whole[i] as int + 32 by {}
}

} // verus!
