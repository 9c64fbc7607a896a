//! Plain text handling: trimming, splitting, joining, decimal numbers.
//!
//! Text is modelled as the sequence of its characters.
use vstd::prelude::*;
use vstd::string::*;

verus! {

/// The characters of a text, in order.
pub fn chars_of(text: &str) -> (chars: Vec<char>)
    ensures
        chars@ == text@,
{
    let mut chars: Vec<char> = Vec::new();
    for c in iter: text.chars()
        invariant
            iter.seq() == text@,
            chars@ == iter.seq().take(iter.index() as int),
    {
        chars.push(c);
        assert(iter.seq().take(iter.index() + 1) =~= iter.seq().take(iter.index() as int).push(c));
    }
    assert(chars@ =~= text@);
    chars
}

/// The text between two character positions.
pub fn slice_of(text: &str, from: usize, to: usize) -> (part: String)
    requires
        from <= to <= text@.len(),
    ensures
        part@ == text@.subrange(from as int, to as int),
{
    text.substring_char(from, to).to_string()
}

/// The two texts, one after the other.
pub fn concat(a: &str, b: &str) -> (joined: String)
    ensures
        joined@ == a@ + b@,
{
    let mut joined = a.to_string();
    joined.append(b);
    joined
}

/// The two texts with a separator between them.
pub fn pair(a: &str, separator: &str, b: &str) -> (joined: String)
    ensures
        joined@ == a@ + separator@ + b@,
{
    let mut joined = a.to_string();
    joined.append(separator);
    joined.append(b);
    joined
}

/// Whether two texts hold the same characters.
pub fn same_text(a: &str, b: &str) -> (same: bool)
    ensures
        same == (a@ == b@),
{
    let left = a.to_string();
    let right = b.to_string();
    left == right
}

/// Characters with the Unicode property `White_Space`.
pub open spec fn is_space(c: char) -> bool {
    ||| '\u{9}' <= c <= '\u{d}'
    ||| c == '\u{20}'
    ||| c == '\u{85}'
    ||| c == '\u{a0}'
    ||| c == '\u{1680}'
    ||| '\u{2000}' <= c <= '\u{200a}'
    ||| c == '\u{2028}'
    ||| c == '\u{2029}'
    ||| c == '\u{202f}'
    ||| c == '\u{205f}'
    ||| c == '\u{3000}'
}

/// Tells whether a character is white space.
pub fn is_space_char(c: char) -> (space: bool)
    ensures
        space == is_space(c),
{
    ('\u{9}' <= c && c <= '\u{d}') || c == '\u{20}' || c == '\u{85}' || c == '\u{a0}'
        || c == '\u{1680}' || ('\u{2000}' <= c && c <= '\u{200a}') || c == '\u{2028}'
        || c == '\u{2029}' || c == '\u{202f}' || c == '\u{205f}' || c == '\u{3000}'
}

/// The text without its leading white space.
pub open spec fn trim_start(text: Seq<char>) -> Seq<char>
    decreases text.len(),
{
    if text.len() > 0 && is_space(text[0]) {
        trim_start(text.drop_first())
    } else {
        text
    }
}

/// The text without its trailing white space.
pub open spec fn trim_end(text: Seq<char>) -> Seq<char>
    decreases text.len(),
{
    if text.len() > 0 && is_space(text.last()) {
        trim_end(text.drop_last())
    } else {
        text
    }
}

/// The text without the white space at both ends.
pub open spec fn trimmed(text: Seq<char>) -> Seq<char> {
    trim_end(trim_start(text))
}

/// Removes the white space at both ends.
pub fn trim(text: &str) -> (part: String)
    ensures
        part@ == trimmed(text@),
{
    let chars = chars_of(text);
    let mut from: usize = 0;
    let mut to: usize = chars.len();
    assert(chars@.subrange(0, chars@.len() as int) =~= chars@);
    while from < to && is_space_char(chars[from])
        invariant
            from <= to == chars@.len(),
            chars@ == text@,
            trim_start(text@) == trim_start(chars@.subrange(from as int, to as int)),
        decreases to - from,
    {
        assert(chars@.subrange(from as int, to as int).drop_first() =~= chars@.subrange(
            from + 1,
            to as int,
        ));
        from = from + 1;
    }
    assert(trim_start(text@) == chars@.subrange(from as int, to as int));
    while from < to && is_space_char(chars[to - 1])
        invariant
            from <= to <= chars@.len(),
            chars@ == text@,
            trimmed(text@) == trim_end(chars@.subrange(from as int, to as int)),
        decreases to - from,
    {
        assert(chars@.subrange(from as int, to as int).drop_last() =~= chars@.subrange(
            from as int,
            to - 1,
        ));
        to = to - 1;
    }
    slice_of(text, from, to)
}

/// Whether the text holds nothing but white space.
pub open spec fn is_blank(text: Seq<char>) -> bool {
    trimmed(text).len() == 0
}

/// Tells whether the text holds nothing but white space.
pub fn blank(text: &str) -> (b: bool)
    ensures
        b == is_blank(text@),
{
    let part = trim(text);
    part.as_str().is_empty()
}

/// Position of the first occurrence of a character, or the length where there is none.
pub open spec fn first_index(text: Seq<char>, c: char) -> int
    decreases text.len(),
{
    if text.len() == 0 || text[0] == c {
        0
    } else {
        1 + first_index(text.drop_first(), c)
    }
}

/// `first_index` is the one position that has the character and no earlier occurrence.
pub proof fn lemma_first_index(text: Seq<char>, c: char, i: int)
    requires
        0 <= i <= text.len(),
        forall|j: int| 0 <= j < i ==> text[j] != c,
        i < text.len() ==> text[i] == c,
    ensures
        first_index(text, c) == i,
    decreases text.len(),
{
    if i > 0 {
        let rest = text.drop_first();
        assert forall|j: int| 0 <= j < i - 1 implies rest[j] != c by {
            assert(rest[j] == text[j + 1]);
        }
        lemma_first_index(rest, c, i - 1);
    }
}

/// Finds the first occurrence of a character from a position on.
fn find(chars: &Vec<char>, from: usize, c: char) -> (i: usize)
    requires
        from <= chars@.len(),
    ensures
        from <= i <= chars@.len(),
        i - from == first_index(chars@.skip(from as int), c),
{
    let mut i = from;
    while i < chars.len() && chars[i] != c
        invariant
            from <= i <= chars@.len(),
            forall|j: int| from <= j < i ==> chars@[j] != c,
        decreases chars@.len() - i,
    {
        i = i + 1;
    }
    proof {
        lemma_first_index(chars@.skip(from as int), c, i - from);
    }
    i
}

/// The parts of a text around the first occurrence of a character.
pub open spec fn split_at_first(text: Seq<char>, c: char) -> Option<(Seq<char>, Seq<char>)> {
    let i = first_index(text, c);
    if i < text.len() {
        Some((text.take(i), text.skip(i + 1)))
    } else {
        None
    }
}

/// Splits a text around the first occurrence of a character.
pub fn split_once(text: &str, c: char) -> (parts: Option<(String, String)>)
    ensures
        match parts {
            Some((before, after)) => split_at_first(text@, c) == Some((before@, after@)),
            None => split_at_first(text@, c) is None,
        },
{
    let chars = chars_of(text);
    assert(chars@.skip(0) =~= chars@);
    let i = find(&chars, 0, c);
    if i < chars.len() {
        let before = slice_of(text, 0, i);
        let after = slice_of(text, i + 1, chars.len());
        assert(before@ =~= text@.take(i as int));
        assert(after@ =~= text@.skip(i + 1));
        Some((before, after))
    } else {
        None
    }
}

/// The text up to the first occurrence of a character, or all of it.
pub open spec fn before_first(text: Seq<char>, c: char) -> Seq<char> {
    text.take(first_index(text, c))
}

/// Cuts a text at the first occurrence of a character.
pub fn head(text: &str, c: char) -> (part: String)
    ensures
        part@ == before_first(text@, c),
{
    let chars = chars_of(text);
    assert(chars@.skip(0) =~= chars@);
    let i = find(&chars, 0, c);
    let part = slice_of(text, 0, i);
    assert(part@ =~= text@.take(i as int));
    part
}

/// The parts of a text between the occurrences of a character.
pub open spec fn split_parts(text: Seq<char>, c: char) -> Seq<Seq<char>>
    decreases text.len(),
    via split_parts_decreases
{
    match split_at_first(text, c) {
        Some((before, after)) => seq![before] + split_parts(after, c),
        None => seq![text],
    }
}

#[via_fn]
proof fn split_parts_decreases(text: Seq<char>, c: char) {
    lemma_first_index_bounds(text, c);
}

proof fn lemma_first_index_bounds(text: Seq<char>, c: char)
    ensures
        0 <= first_index(text, c) <= text.len(),
    decreases text.len(),
{
    if text.len() > 0 && text[0] != c {
        lemma_first_index_bounds(text.drop_first(), c);
    }
}

/// Splits a text at every occurrence of a character.
pub fn split(text: &str, c: char) -> (parts: Vec<String>)
    ensures
        parts@.map_values(|p: String| p@) == split_parts(text@, c),
{
    let chars = chars_of(text);
    let mut parts: Vec<String> = Vec::new();
    let mut from: usize = 0;
    let ghost view = |p: String| p@;
    assert(chars@.skip(0) =~= chars@);
    assert(parts@.map_values(view) + split_parts(text@, c) =~= split_parts(text@, c));
    loop
        invariant
            chars@ == text@,
            from <= chars@.len(),
            view == (|p: String| p@),
            parts@.map_values(view) + split_parts(chars@.skip(from as int), c) == split_parts(
                text@,
                c,
            ),
        decreases chars@.len() - from,
    {
        let i = find(&chars, from, c);
        let ghost rest = chars@.skip(from as int);
        let part = slice_of(text, from, i);
        let ghost before = parts@;
        assert(part@ =~= rest.take(i - from));
        parts.push(part);
        assert(parts@.map_values(view) =~= before.map_values(view).push(part@));
        if i == chars.len() {
            assert(rest.take(i - from) =~= rest);
            assert(split_parts(rest, c) == seq![rest]);
            assert(parts@.map_values(view) =~= before.map_values(view) + seq![rest]);
            return parts;
        }
        assert(rest.skip(i - from + 1) =~= chars@.skip(i + 1));
        assert(split_parts(rest, c) == seq![part@] + split_parts(chars@.skip(i + 1), c));
        assert(parts@.map_values(view) + split_parts(chars@.skip(i + 1), c) =~= before.map_values(
            view,
        ) + (seq![part@] + split_parts(chars@.skip(i + 1), c)));
        from = i + 1;
    }
}

/// Splitting where nothing is found gives the text back.
pub proof fn lemma_split_none(text: Seq<char>, c: char)
    requires
        !text.contains(c),
    ensures
        first_index(text, c) == text.len(),
        split_parts(text, c) == seq![text],
{
    assert forall|j: int| 0 <= j < text.len() implies text[j] != c by {
        if text[j] == c {
            assert(text.contains(c));
        }
    }
    lemma_first_index(text, c, text.len() as int);
}

/// Splitting a text whose first part lacks the character peels that part off.
pub proof fn lemma_split_first(before: Seq<char>, after: Seq<char>, c: char)
    requires
        !before.contains(c),
    ensures
        split_at_first(before + seq![c] + after, c) == Some((before, after)),
        split_parts(before + seq![c] + after, c) == seq![before] + split_parts(after, c),
{
    let text = before + seq![c] + after;
    let i = before.len() as int;
    assert forall|j: int| 0 <= j < i implies text[j] != c by {
        assert(text[j] == before[j]);
        if before[j] == c {
            assert(before.contains(c));
        }
    }
    lemma_first_index(text, c, i);
    assert(text.take(i) =~= before);
    assert(text.skip(i + 1) =~= after);
}

/// The text behind a prefix.
pub open spec fn without_prefix(text: Seq<char>, prefix: Seq<char>) -> Option<Seq<char>> {
    if prefix.is_prefix_of(text) {
        Some(text.skip(prefix.len() as int))
    } else {
        None
    }
}

/// Removes a prefix, where the text starts with it.
pub fn strip_prefix(text: &str, prefix: &str) -> (rest: Option<String>)
    ensures
        match rest {
            Some(r) => without_prefix(text@, prefix@) == Some(r@),
            None => without_prefix(text@, prefix@) is None,
        },
{
    let n = prefix.unicode_len();
    let m = text.unicode_len();
    if m < n {
        return None;
    }
    let front = slice_of(text, 0, n);
    if same_text(front.as_str(), prefix) {
        assert(prefix@.is_prefix_of(text@)) by {
            assert(text@.subrange(0, n as int) =~= prefix@);
        }
        let rest = slice_of(text, n, m);
        assert(rest@ =~= text@.skip(n as int));
        Some(rest)
    } else {
        proof {
            if prefix@.is_prefix_of(text@) {
                assert(text@.subrange(0, n as int) =~= prefix@);
            }
        }
        None
    }
}

/// The texts with a separator between neighbours.
pub open spec fn joined(parts: Seq<Seq<char>>, separator: Seq<char>) -> Seq<char>
    decreases parts.len(),
{
    if parts.len() == 0 {
        Seq::empty()
    } else if parts.len() == 1 {
        parts[0]
    } else {
        joined(parts.drop_last(), separator) + separator + parts.last()
    }
}

/// Joins texts with a separator between neighbours.
pub fn join(parts: &Vec<String>, separator: &str) -> (text: String)
    ensures
        text@ == joined(parts@.map_values(|p: String| p@), separator@),
{
    let mut text = String::new();
    let ghost views = parts@.map_values(|p: String| p@);
    let mut i: usize = 0;
    assert(views.take(0) =~= Seq::empty());
    while i < parts.len()
        invariant
            i <= parts@.len(),
            views == parts@.map_values(|p: String| p@),
            text@ == joined(views.take(i as int), separator@),
        decreases parts@.len() - i,
    {
        if i > 0 {
            text.append(separator);
        }
        text.append(parts[i].as_str());
        assert(views.take(i + 1).drop_last() =~= views.take(i as int));
        assert(views.take(i + 1).last() == parts@[i as int]@);
        assert(i == 0 ==> text@ =~= views.take(1)[0]);
        i = i + 1;
    }
    assert(views.take(i as int) =~= views);
    text
}

/// The digit for a value below ten.
pub open spec fn digit(n: nat) -> char {
    (('0' as int) + n) as char
}

/// A number in decimal notation.
pub open spec fn decimal(n: nat) -> Seq<char>
    decreases n,
{
    if n < 10 {
        seq![digit(n)]
    } else {
        decimal(n / 10).push(digit(n % 10))
    }
}

fn digit_text(n: u64) -> (text: &'static str)
    requires
        n < 10,
    ensures
        text@ == seq![digit(n as nat)],
{
    proof {
        reveal_strlit("0");
        reveal_strlit("1");
        reveal_strlit("2");
        reveal_strlit("3");
        reveal_strlit("4");
        reveal_strlit("5");
        reveal_strlit("6");
        reveal_strlit("7");
        reveal_strlit("8");
        reveal_strlit("9");
    }
    let text = match n {
        0 => "0",
        1 => "1",
        2 => "2",
        3 => "3",
        4 => "4",
        5 => "5",
        6 => "6",
        7 => "7",
        8 => "8",
        _ => "9",
    };
    assert(text@ =~= seq![digit(n as nat)]);
    text
}

/// Writes a number in decimal notation.
pub fn decimal_text(n: u64) -> (text: String)
    ensures
        text@ == decimal(n as nat),
    decreases n,
{
    if n < 10 {
        digit_text(n).to_string()
    } else {
        let mut text = decimal_text(n / 10);
        let last = digit_text(n % 10);
        text.append(last);
        assert(text@ =~= decimal((n / 10) as nat).push(digit((n % 10) as nat)));
        text
    }
}

/// Whether every character is a decimal digit.
pub open spec fn all_digits(text: Seq<char>) -> bool {
    forall|i: int| 0 <= i < text.len() ==> '0' <= #[trigger] text[i] <= '9'
}

/// The number that decimal digits stand for.
pub open spec fn digits_value(text: Seq<char>) -> nat
    decreases text.len(),
{
    if text.len() == 0 {
        0
    } else {
        digits_value(text.drop_last()) * 10 + ((text.last() as int - '0' as int) as nat)
    }
}

/// The digits of a number that may carry a plus sign.
pub open spec fn unsigned_digits(text: Seq<char>) -> Seq<char> {
    if text.len() > 0 && text[0] == '+' {
        text.skip(1)
    } else {
        text
    }
}

/// The unsigned 64-bit number that a text stands for: decimal digits, at least one, after an
/// optional plus sign, in range.
pub open spec fn unsigned_value(text: Seq<char>) -> Option<u64> {
    let digits = unsigned_digits(text);
    if digits.len() > 0 && all_digits(digits) && digits_value(digits) <= u64::MAX {
        Some(digits_value(digits) as u64)
    } else {
        None
    }
}

proof fn lemma_digits_value_grows(text: Seq<char>, n: int)
    requires
        0 <= n <= text.len(),
    ensures
        digits_value(text.take(n)) <= digits_value(text),
    decreases text.len() - n,
{
    if n == text.len() {
        assert(text.take(n) =~= text);
    } else {
        lemma_digits_value_grows(text, n + 1);
        assert(text.take(n + 1).drop_last() =~= text.take(n));
    }
}

/// Reads an unsigned 64-bit number.
pub fn parse_u64(text: &str) -> (value: Option<u64>)
    ensures
        value == unsigned_value(text@),
{
    let chars = chars_of(text);
    let from: usize = if chars.len() > 0 && chars[0] == '+' {
        1
    } else {
        0
    };
    let ghost digits = unsigned_digits(text@);
    assert(digits =~= chars@.skip(from as int));
    if from == chars.len() {
        return None;
    }
    let mut value: u64 = 0;
    let mut i: usize = from;
    assert(digits.take(0) =~= Seq::empty());
    while i < chars.len()
        invariant
            from <= i <= chars@.len(),
            digits == chars@.skip(from as int),
            digits == unsigned_digits(text@),
            digits.len() > 0,
            forall|j: int| 0 <= j < i - from ==> '0' <= #[trigger] digits[j] <= '9',
            value == digits_value(digits.take(i - from)),
        decreases chars@.len() - i,
    {
        let c = chars[i];
        assert(digits[i - from] == c);
        if !('0' <= c && c <= '9') {
            assert(!all_digits(digits));
            return None;
        }
        let d: u64 = c as u64 - '0' as u64;
        assert(digits.take(i - from + 1).drop_last() =~= digits.take(i - from));
        assert(digits_value(digits.take(i - from + 1)) == value * 10 + d);
        if value > (u64::MAX - d) / 10 {
            proof {
                lemma_digits_value_grows(digits, i - from + 1);
            }
            return None;
        }
        value = value * 10 + d;
        i = i + 1;
    }
    assert(digits.take(i - from) =~= digits);
    Some(value)
}

} // verus!
