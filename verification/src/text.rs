//! Text as sequences of characters: substring search, and the few operations of `str`
//! that the rest of the library builds on.

use vstd::prelude::*;

verus! {

/// `needle` stands in `hay` at position `at`.
pub open spec fn occurs_at(hay: Seq<char>, needle: Seq<char>, at: int) -> bool {
    &&& 0 <= at
    &&& at + needle.len() <= hay.len()
    &&& hay.subrange(at, at + needle.len()) == needle
}

/// `needle` stands somewhere in `hay`.
pub open spec fn contains_text(hay: Seq<char>, needle: Seq<char>) -> bool {
    exists|at: int| occurs_at(hay, needle, at)
}

/// The first `upto` characters of `needle` agree with `hay` from position `at` on.
pub open spec fn agrees_upto(hay: Seq<char>, needle: Seq<char>, at: int, upto: int) -> bool {
    forall|k: int| 0 <= k < upto ==> hay[at + k] == #[trigger] needle[k]
}

/// The characters of a string slice, in order.
pub fn chars_of(s: &str) -> (chars: Vec<char>)
    ensures
        chars@ == s@,
{
    let mut chars: Vec<char> = Vec::new();
    for c in it: s.chars()
        invariant
            chars@ == it.seq().take(it.index()),
            it.seq() == s@,
    {
        chars.push(c);
    }
    chars
}

/// Whether `needle` stands in `hay` at position `at`.
fn matches_at(hay: &Vec<char>, needle: &Vec<char>, at: usize) -> (found: bool)
    requires
        at + needle.len() <= hay.len(),
    ensures
        found == occurs_at(hay@, needle@, at as int),
{
    let mut k: usize = 0;
    while k < needle.len()
        invariant
            k <= needle.len(),
            at + needle.len() <= hay.len(),
            agrees_upto(hay@, needle@, at as int, k as int),
        decreases needle.len() - k,
    {
        if hay[at + k] != needle[k] {
            proof {
                let part = hay@.subrange(at as int, at + needle.len());
                assert(part[k as int] == hay@[at + k]);
            }
            return false;
        }
        k += 1;
    }
    proof {
        assert(hay@.subrange(at as int, at + needle.len()) =~= needle@);
    }
    true
}

/// Whether `needle` stands somewhere in `hay`. The empty needle stands in every text.
pub fn contains_chars(hay: &Vec<char>, needle: &Vec<char>) -> (found: bool)
    ensures
        found == contains_text(hay@, needle@),
{
    if needle.len() > hay.len() {
        return false;
    }
    let last: usize = hay.len() - needle.len();
    let mut at: usize = 0;
    loop
        invariant
            last == hay.len() - needle.len(),
            at <= last,
            forall|j: int| 0 <= j < at ==> !occurs_at(hay@, needle@, j),
        decreases last - at,
    {
        if matches_at(hay, needle, at) {
            return true;
        }
        if at == last {
            return false;
        }
        at += 1;
    }
}

/// Whether the string slice `hay` holds `needle` as a run of consecutive characters.
pub fn contains(hay: &str, needle: &str) -> (found: bool)
    ensures
        found == contains_text(hay@, needle@),
{
    let hay_chars = chars_of(hay);
    let needle_chars = chars_of(needle);
    contains_chars(&hay_chars, &needle_chars)
}

/// Whether `char::is_whitespace` holds of a character: whether Unicode gives it the
/// property `White_Space`.
pub uninterp spec fn whitespace(c: char) -> bool;

/// Calls `char::is_whitespace`. Nothing is claimed of the answer but that it is the one
/// that `whitespace` names; which characters those are is left to the standard library.
#[verifier::external_body]
pub(crate) fn is_whitespace(c: char) -> (answer: bool)
    ensures
        answer == whitespace(c),
{
    c.is_whitespace()
}

/// What `str::to_uppercase` returns for a text: its upper-case equivalent by Unicode's
/// rules, which depends on the text alone and not on a locale.
pub uninterp spec fn uppercase_of(text: Seq<char>) -> Seq<char>;

/// Calls `str::to_uppercase`. Nothing is claimed of the new string but that it is the one
/// that `uppercase_of` names.
#[verifier::external_body]
pub(crate) fn to_uppercase(s: &str) -> (upper: String)
    ensures
        upper@ == uppercase_of(s@),
{
    s.to_uppercase()
}

/// How many of the marks at the front are set, before the first that is not.
pub open spec fn leading(marks: Seq<bool>) -> nat
    decreases marks.len(),
{
    if marks.len() > 0 && marks.first() {
        1 + leading(marks.drop_first())
    } else {
        0
    }
}

/// How many of the marks at the end are set, after the last that is not.
pub open spec fn trailing(marks: Seq<bool>) -> nat
    decreases marks.len(),
{
    if marks.len() > 0 && marks.last() {
        1 + trailing(marks.drop_last())
    } else {
        0
    }
}

/// The bounds of what is left of a text when the marked characters at its front and at
/// its end are removed: the position of the first character that stays, and the position
/// after the last. Where every character is marked, nothing stays.
pub open spec fn solid_span(marks: Seq<bool>) -> (int, int) {
    let from = leading(marks) as int;
    if from == marks.len() {
        (from, from)
    } else {
        (from, marks.len() - trailing(marks))
    }
}

/// For each character of a text, whether it is whitespace.
pub open spec fn blanks_of(text: Seq<char>) -> Seq<bool> {
    text.map_values(|c: char| whitespace(c))
}

/// `text` without its leading and trailing whitespace.
pub open spec fn trimmed(text: Seq<char>) -> Seq<char> {
    let span = solid_span(blanks_of(text));
    text.subrange(span.0, span.1)
}

/// A text is blank: it holds nothing but whitespace.
pub open spec fn is_blank(text: Seq<char>) -> bool {
    forall|i: int| 0 <= i < text.len() ==> whitespace(#[trigger] text[i])
}

/// The marks counted at the front are set, and the one after them is not.
pub proof fn leading_stops_at_unset(marks: Seq<bool>)
    ensures
        leading(marks) <= marks.len(),
        forall|i: int| 0 <= i < leading(marks) ==> marks[i],
        leading(marks) < marks.len() ==> !marks[leading(marks) as int],
    decreases marks.len(),
{
    if marks.len() > 0 && marks.first() {
        let rest = marks.drop_first();
        leading_stops_at_unset(rest);
        assert forall|i: int| 0 <= i < leading(marks) implies marks[i] by {
            if i > 0 {
                assert(marks[i] == rest[i - 1]);
            }
        }
        if leading(marks) < marks.len() {
            assert(marks[leading(marks) as int] == rest[leading(rest) as int]);
        }
    }
}

/// The marks counted at the end are set, and the one before them is not.
pub proof fn trailing_stops_at_unset(marks: Seq<bool>)
    ensures
        trailing(marks) <= marks.len(),
        forall|i: int| marks.len() - trailing(marks) <= i < marks.len() ==> marks[i],
        trailing(marks) < marks.len() ==> !marks[marks.len() - trailing(marks) - 1],
    decreases marks.len(),
{
    if marks.len() > 0 && marks.last() {
        let rest = marks.drop_last();
        trailing_stops_at_unset(rest);
        assert forall|i: int| marks.len() - trailing(marks) <= i < marks.len() implies marks[i] by {
            if i < marks.len() - 1 {
                assert(marks[i] == rest[i]);
            }
        }
        if trailing(marks) < marks.len() {
            assert(marks[marks.len() - trailing(marks) - 1] == rest[rest.len() - trailing(rest)
                - 1]);
        }
    }
}

/// The span is a range of positions of the text; it is empty exactly when every
/// character is marked, and else it begins and ends with a character that is not.
pub proof fn solid_span_is_tight(marks: Seq<bool>)
    ensures
        ({
            let span = solid_span(marks);
            &&& 0 <= span.0 <= span.1 <= marks.len()
            &&& span.0 == span.1 <==> (forall|i: int| 0 <= i < marks.len() ==> marks[i])
            &&& span.0 < span.1 ==> !marks[span.0] && !marks[span.1 - 1]
            &&& forall|i: int| 0 <= i < span.0 ==> marks[i]
            &&& forall|i: int| span.1 <= i < marks.len() ==> marks[i]
        }),
{
    leading_stops_at_unset(marks);
    trailing_stops_at_unset(marks);
}

/// Trimming leaves nothing of a blank text, and something of every other.
pub proof fn trimmed_is_empty_iff_blank(text: Seq<char>)
    ensures
        trimmed(text).len() == 0 <==> is_blank(text),
{
    let marks = blanks_of(text);
    solid_span_is_tight(marks);
    if is_blank(text) {
        assert forall|i: int| 0 <= i < marks.len() implies marks[i] by {
            assert(marks[i] == whitespace(text[i]));
        }
    }
    if forall|i: int| 0 <= i < marks.len() ==> marks[i] {
        assert forall|i: int| 0 <= i < text.len() implies whitespace(#[trigger] text[i]) by {
            assert(marks[i] == whitespace(text[i]));
        }
    }
}

/// Finds the bounds of what is left of a text when the marked characters at its front
/// and at its end are removed.
pub fn find_solid_span(marks: &Vec<bool>) -> (span: (usize, usize))
    ensures
        (span.0 as int, span.1 as int) == solid_span(marks@),
{
    let n: usize = marks.len();
    let mut from: usize = 0;
    proof {
        assert(marks@.skip(0) =~= marks@);
    }
    while from < n && marks[from]
        invariant
            from <= n,
            n == marks.len(),
            leading(marks@) == from + leading(marks@.skip(from as int)),
        decreases n - from,
    {
        proof {
            let rest = marks@.skip(from as int);
            assert(rest.first() == marks@[from as int]);
            assert(rest.drop_first() =~= marks@.skip(from + 1));
        }
        from += 1;
    }
    proof {
        let rest = marks@.skip(from as int);
        if from < n {
            assert(rest.first() == marks@[from as int]);
        }
        assert(leading(rest) == 0);
    }
    if from == n {
        return (from, from);
    }
    let mut to: usize = n;
    proof {
        assert(marks@.take(n as int) =~= marks@);
    }
    while to > from && marks[to - 1]
        invariant
            from <= to <= n,
            n == marks.len(),
            trailing(marks@) == (n - to) + trailing(marks@.take(to as int)),
        decreases to,
    {
        proof {
            let rest = marks@.take(to as int);
            assert(rest.last() == marks@[to - 1]);
            assert(rest.drop_last() =~= marks@.take(to - 1));
        }
        to -= 1;
    }
    proof {
        let rest = marks@.take(to as int);
        trailing_stops_at_unset(marks@);
        if to > from {
            assert(rest.last() == marks@[to - 1]);
            assert(trailing(rest) == 0);
        } else {
            assert(!marks@[from as int]);
            assert(trailing(marks@) >= n - to);
            assert(trailing(marks@) <= n - from - 1) by {
                if trailing(marks@) > n - from - 1 {
                    assert(marks@[from as int]);
                }
            }
        }
    }
    (from, to)
}

/// The part of `s` that is left when leading and trailing whitespace is removed.
pub fn trim<'a>(s: &'a str) -> (t: &'a str)
    ensures
        t@ == trimmed(s@),
{
    let chars = chars_of(s);
    let mut marks: Vec<bool> = Vec::new();
    let mut at: usize = 0;
    while at < chars.len()
        invariant
            at <= chars.len(),
            marks@ == blanks_of(chars@.take(at as int)),
        decreases chars.len() - at,
    {
        marks.push(is_whitespace(chars[at]));
        proof {
            assert(marks@ =~= blanks_of(chars@.take(at + 1)));
        }
        at += 1;
    }
    proof {
        assert(chars@.take(at as int) =~= chars@);
        solid_span_is_tight(marks@);
    }
    let span = find_solid_span(&marks);
    s.substring_char(span.0, span.1)
}

/// The character that stands for a digit below ten.
pub open spec fn digit_char(digit: nat) -> char
    recommends
        digit < 10,
{
    if digit == 0 {
        '0'
    } else if digit == 1 {
        '1'
    } else if digit == 2 {
        '2'
    } else if digit == 3 {
        '3'
    } else if digit == 4 {
        '4'
    } else if digit == 5 {
        '5'
    } else if digit == 6 {
        '6'
    } else if digit == 7 {
        '7'
    } else if digit == 8 {
        '8'
    } else {
        '9'
    }
}

/// A number written in decimal, without leading zeros.
pub open spec fn decimal_of(n: nat) -> Seq<char>
    decreases n,
{
    if n < 10 {
        seq![digit_char(n)]
    } else {
        decimal_of(n / 10).push(digit_char(n % 10))
    }
}

/// The text of one digit.
fn digit_text(digit: u16) -> (text: &'static str)
    requires
        digit < 10,
    ensures
        text@ == seq![digit_char(digit as nat)],
{
    proof {
        reveal_strlit("0");
        reveal_strlit("1");
        reveal_strlit("2");
        reveal_strlit("3");
        reveal_strlit("4");
        reveal_strlit("5");
        reveal_strlit("6");
        reveal_strlit("7");
        reveal_strlit("8");
        reveal_strlit("9");
    }
    let text = match digit {
        0 => "0",
        1 => "1",
        2 => "2",
        3 => "3",
        4 => "4",
        5 => "5",
        6 => "6",
        7 => "7",
        8 => "8",
        _ => "9",
    };
    assert(text@ =~= seq![digit_char(digit as nat)]);
    text
}

/// Writes a number in decimal.
pub fn decimal(n: u16) -> (text: String)
    ensures
        text@ == decimal_of(n as nat),
    decreases n,
{
    if n < 10 {
        String::from_str(digit_text(n))
    } else {
        let mut text = decimal(n / 10);
        text.append(digit_text(n % 10));
        assert(text@ =~= decimal_of(n as nat));
        text
    }
}

} // verus!
