//! What is written is what is read.

use vstd::prelude::*;

use crate::text::{
    all_digits, decimal, digits_value, has_part, parsed_u64, signed_decimal, without_leading,
};

verus! {

/// The decimal text of a number is made of digits, writes that number, and
/// has no zero before its other digits.
pub proof fn law_decimal_writes_the_number(n: nat)
    ensures
        all_digits(decimal(n)),
        digits_value(decimal(n)) == n,
        n > 0 ==> decimal(n)[0] != '0',
        n == 0 ==> decimal(n) == seq!['0'],
    decreases n,
{
    if n < 10 {
        assert(decimal(n).drop_last() =~= Seq::<char>::empty());
        assert(digits_value(decimal(n).drop_last()) == 0);
    } else {
        law_decimal_writes_the_number(n / 10);
        assert(decimal(n).drop_last() =~= decimal(n / 10));
        assert forall|i: int| 0 <= i < decimal(n).len() implies '0' <= #[trigger] decimal(n)[i]
            <= '9' by {
            if i < decimal(n / 10).len() {
                assert(decimal(n)[i] == decimal(n / 10)[i]);
            }
        }
    }
}

/// A negative number is written as a minus and its magnitude, and another as
/// the number itself.
pub proof fn law_signs_are_written(n: int)
    ensures
        n >= 0 ==> all_digits(signed_decimal(n)) && digits_value(signed_decimal(n)) == n,
        n < 0 ==> signed_decimal(n)[0] == '-' && all_digits(signed_decimal(n).skip(1))
            && digits_value(signed_decimal(n).skip(1)) == -n,
{
    if n >= 0 {
        law_decimal_writes_the_number(n as nat);
    } else {
        law_decimal_writes_the_number((-n) as nat);
        assert(signed_decimal(n).skip(1) =~= decimal((-n) as nat));
    }
}

/// A number that is written in decimal, with a plus before it or not, is read
/// as that number.
pub proof fn law_numbers_are_read_back(n: u64)
    ensures
        parsed_u64(decimal(n as nat)) == Some(n),
        parsed_u64(seq!['+'] + decimal(n as nat)) == Some(n),
{
    law_decimal_writes_the_number(n as nat);
    assert((seq!['+'] + decimal(n as nat)).skip(1) =~= decimal(n as nat));
}

/// A text that is empty, or holds what is no digit past a plus at its start,
/// is no number.
pub proof fn law_other_texts_are_no_numbers(text: Seq<char>, i: int)
    requires
        text.len() == 0 || text == seq!['+'] || (0 <= i < text.len() && !('0' <= text[i] <= '9')
            && !(i == 0 && text[i] == '+')),
    ensures
        parsed_u64(text) is None,
{
    if text.len() > 0 && text[0] == '+' && 0 < i < text.len() {
        assert(text.skip(1)[i - 1] == text[i]);
    }
}

/// What is left of a text without its leading letters does not begin with
/// that letter, and what was dropped is that letter alone.
pub proof fn law_leading_letters_are_dropped(text: Seq<char>, lead: char)
    ensures
        ({
            let rest = without_leading(text, lead);
            let dropped = text.len() - rest.len();
            &&& 0 <= dropped
            &&& rest == text.skip(dropped)
            &&& forall|i: int| 0 <= i < dropped ==> #[trigger] text[i] == lead
            &&& rest.len() > 0 ==> rest[0] != lead
        }),
    decreases text.len(),
{
    if text.len() > 0 && text[0] == lead {
        let next = text.skip(1);
        law_leading_letters_are_dropped(next, lead);
        let dropped = next.len() - without_leading(next, lead).len();
        assert(next.skip(dropped) =~= text.skip(dropped + 1));
        assert forall|i: int| 0 <= i < dropped + 1 implies #[trigger] text[i] == lead by {
            if i > 0 {
                assert(next[i - 1] == text[i]);
            }
        }
    } else {
        assert(text.skip(0) =~= text);
    }
}

/// A text has a part exactly when it is that part with something, or nothing,
/// before and after it.
pub proof fn law_parts_are_found(text: Seq<char>, part: Seq<char>)
    ensures
        has_part(text, part) <==> exists|before: Seq<char>, after: Seq<char>|
            text == #[trigger] (before + part + after),
{
    if has_part(text, part) {
        let i = choose|i: int|
            0 <= i <= text.len() - part.len() && #[trigger] text.subrange(i, i + part.len())
                == part;
        assert(text =~= text.take(i) + part + text.skip(i + part.len()));
    }
    if exists|before: Seq<char>, after: Seq<char>| text == #[trigger] (before + part + after) {
        let (before, after) = choose|before: Seq<char>, after: Seq<char>|
            text == #[trigger] (before + part + after);
        let i = before.len() as int;
        assert(text.subrange(i, i + part.len()) =~= part);
    }
}

} // verus!
