//! Texts and numbers.
use vstd::prelude::*;

use crate::text::{
    all_digits, decimal, digits_value, is_blank, is_space, lemma_split_first, lemma_split_none,
    split_at_first, split_parts, trim_end, trim_start, trimmed, unsigned_digits, unsigned_value,
};

verus! {

/// The white space of Unicode: tab to carriage return, the space, the next line, the spaces of
/// other scripts and widths, and the separators of lines and paragraphs.
pub proof fn law_white_space_is_that_of_unicode(c: char)
    ensures
        is_space(c) <==> ({
            let n = c as int;
            ||| 9 <= n <= 13
            ||| n == 32 || n == 133 || n == 160 || n == 5760
            ||| 8192 <= n <= 8202
            ||| n == 8232 || n == 8233 || n == 8239 || n == 8287 || n == 12288
        }),
{
}

/// Whether every character is white space.
pub open spec fn only_space(text: Seq<char>) -> bool {
    forall|i: int| 0 <= i < text.len() ==> is_space(#[trigger] text[i])
}

/// Trimming takes the white space away at both ends and nothing else.
pub proof fn law_trimming_leaves_what_is_between(
    before: Seq<char>,
    core: Seq<char>,
    after: Seq<char>,
)
    requires
        only_space(before),
        only_space(after),
        core.len() == 0 || (!is_space(core[0]) && !is_space(core.last())),
    ensures
        trimmed(before + core + after) == core,
    decreases before.len() + after.len(),
{
    let text = before + core + after;
    if before.len() > 0 {
        assert(text[0] == before[0]);
        assert(text.drop_first() =~= before.drop_first() + core + after);
        law_trimming_leaves_what_is_between(before.drop_first(), core, after);
    } else if core.len() == 0 {
        assert(text =~= after);
        if after.len() > 0 {
            assert(text[0] == after[0]);
            assert(text.drop_first() =~= before + core + after.drop_first());
            law_trimming_leaves_what_is_between(before, core, after.drop_first());
        }
    } else {
        assert(text[0] == core[0]);
        assert(trim_start(text) == text);
        lemma_trim_end(core, after);
        assert(text =~= core + after);
    }
}

proof fn lemma_trim_end(core: Seq<char>, after: Seq<char>)
    requires
        only_space(after),
        core.len() > 0,
        !is_space(core.last()),
    ensures
        trim_end(core + after) == core,
    decreases after.len(),
{
    let text = core + after;
    if after.len() > 0 {
        assert(text.last() == after.last());
        assert(text.drop_last() =~= core + after.drop_last());
        lemma_trim_end(core, after.drop_last());
    } else {
        assert(text =~= core);
    }
}

/// A text is blank exactly where it is white space alone.
pub proof fn law_blank_is_white_space_alone(text: Seq<char>)
    ensures
        is_blank(text) <==> only_space(text),
    decreases text.len(),
{
    if only_space(text) {
        law_trimming_leaves_what_is_between(text, Seq::empty(), Seq::empty());
        assert(text + Seq::<char>::empty() + Seq::<char>::empty() =~= text);
    } else {
        lemma_not_blank(text);
    }
}

proof fn lemma_not_blank(text: Seq<char>)
    requires
        !only_space(text),
    ensures
        trimmed(text).len() > 0,
    decreases text.len(),
{
    let i = choose|i: int| 0 <= i < text.len() && !is_space(#[trigger] text[i]);
    if is_space(text[0]) {
        let rest = text.drop_first();
        assert(rest[i - 1] == text[i]);
        lemma_not_blank(rest);
    } else {
        lemma_end_not_blank(text);
    }
}

proof fn lemma_end_not_blank(text: Seq<char>)
    requires
        text.len() > 0,
        !is_space(text[0]),
    ensures
        trim_end(text).len() > 0,
    decreases text.len(),
{
    if is_space(text.last()) {
        lemma_end_not_blank(text.drop_last());
    }
}

/// Whether decimal digits stand for a number, the last for the ones.
pub open spec fn stands_for(digits: Seq<char>, n: nat) -> bool
    decreases digits.len(),
{
    &&& digits.len() > 0
    &&& 48 <= digits.last() as int <= 57
    &&& digits.last() as int - 48 == n % 10
    &&& if digits.len() == 1 {
        n < 10
    } else {
        stands_for(digits.drop_last(), n / 10)
    }
}

/// A number is written in decimal digits without a leading zero.
pub proof fn law_number_is_written_in_decimal(n: nat)
    ensures
        stands_for(decimal(n), n),
        n > 0 ==> decimal(n)[0] != '0',
    decreases n,
{
    if n >= 10 {
        law_number_is_written_in_decimal(n / 10);
        let d = (('0' as int) + n % 10) as char;
        assert(decimal(n) == decimal(n / 10).push(d));
        assert(decimal(n).drop_last() =~= decimal(n / 10));
    }
}

/// Decimal digits, with or without a plus sign, are read as the number that they stand for, where
/// it has 64 bits; a greater one is not read.
pub proof fn law_digits_are_read_as_their_number(digits: Seq<char>, n: nat)
    requires
        stands_for(digits, n),
    ensures
        n <= 0xffff_ffff_ffff_ffff ==> unsigned_value(digits) == Some(n as u64),
        n <= 0xffff_ffff_ffff_ffff ==> unsigned_value(seq!['+'] + digits) == Some(n as u64),
        n > 0xffff_ffff_ffff_ffff ==> unsigned_value(digits) is None,
{
    lemma_value(digits, n);
    assert((seq!['+'] + digits).skip(1) =~= digits);
    assert('0' <= digits[0] <= '9');
}

proof fn lemma_value(digits: Seq<char>, n: nat)
    requires
        stands_for(digits, n),
    ensures
        all_digits(digits),
        digits_value(digits) == n,
    decreases digits.len(),
{
    let rest = digits.drop_last();
    if digits.len() == 1 {
        assert(digits_value(rest) == 0);
    } else {
        lemma_value(rest, n / 10);
    }
    assert forall|i: int| 0 <= i < digits.len() implies '0' <= #[trigger] digits[i] <= '9' by {
        if i < rest.len() {
            assert(rest[i] == digits[i]);
        }
    }
}

/// Whether a text is no number in decimal digits: empty, a plus sign alone, or with a character
/// that is neither a digit nor a plus sign in front.
pub open spec fn is_no_numeral(text: Seq<char>) -> bool {
    text.len() == 0 || text == seq!['+'] || exists|i: int|
        0 <= i < text.len() && !(48 <= #[trigger] text[i] as int <= 57) && !(i == 0 && text[i]
            == '+')
}

/// A text with any other character, or with none, is no number.
pub proof fn law_other_texts_are_no_numbers(text: Seq<char>)
    requires
        is_no_numeral(text),
    ensures
        unsigned_value(text) is None,
{
    let digits = unsigned_digits(text);
    if text.len() > 0 && text != seq!['+'] {
        let i = choose|i: int|
            0 <= i < text.len() && !(48 <= #[trigger] text[i] as int <= 57) && !(i == 0 && text[i]
                == '+');
        if text[0] == '+' {
            assert(digits[i - 1] == text[i]);
        } else {
            assert(digits[i] == text[i]);
        }
    }
}

/// A text is split at every separator and nowhere else.
pub proof fn law_text_is_split_at_its_separators(
    first: Seq<char>,
    second: Seq<char>,
    third: Seq<char>,
    c: char,
)
    requires
        !first.contains(c) && !second.contains(c) && !third.contains(c),
    ensures
        split_parts(first, c) == seq![first],
        split_parts(first + seq![c] + second, c) == seq![first, second],
        split_parts(first + seq![c] + (second + seq![c] + third), c) == seq![
            first,
            second,
            third,
        ],
        split_at_first(first, c) is None,
        split_at_first(first + seq![c] + (second + seq![c] + third), c) == Some(
            (first, second + seq![c] + third),
        ),
{
    lemma_split_none(first, c);
    lemma_split_none(second, c);
    lemma_split_none(third, c);
    lemma_split_first(first, second, c);
    lemma_split_first(second, third, c);
    lemma_split_first(first, second + seq![c] + third, c);
    assert(seq![first] + seq![second] =~= seq![first, second]);
    assert(seq![first] + (seq![second] + seq![third]) =~= seq![first, second, third]);
}

} // verus!
