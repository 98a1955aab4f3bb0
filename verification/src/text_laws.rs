//! What numbers look like in text, said of the answers of the functions that write and
//! read them.

use vstd::prelude::*;
use crate::text::{
    all_digits, chars_of, decimal, decimal_text, decimal_value, is_digit, read_u16, same_text,
    unsigned_part,
};

verus! {

/// Decimal notation ends in the digit for the units, and what stands before that is
/// the notation of the tens; a number below ten is a single digit.
pub proof fn law_decimal_text_is_positional(n: u64, text: String, tens: String)
    requires
        call_ensures(decimal_text, (n,), text),
        call_ensures(decimal_text, (n / 10,), tens),
    ensures
        text@.len() > 0,
        text@.last() as int == '0' as int + n % 10,
        n < 10 ==> text@.len() == 1,
        n >= 10 ==> text@.drop_last() == tens@,
{
    if n >= 10 {
        assert(decimal(n as nat).drop_last() =~= decimal((n / 10) as nat));
    }
}

/// A number is read digit by digit: with one more digit it is ten times what it was,
/// plus the digit, and it is no number any more if that exceeds 65535. The first digit
/// may follow a `+`. With any other character at its end a text is no number, and an
/// empty one is none either.
pub proof fn law_number_is_read_digit_by_digit(
    text: &str,
    longer: &str,
    last: char,
    value: Option<u16>,
    longer_value: Option<u16>,
)
    requires
        longer@ == text@.push(last),
        call_ensures(read_u16, (text,), value),
        call_ensures(read_u16, (longer,), longer_value),
    ensures
        text@.len() == 0 ==> value is None,
        !('0' <= last <= '9') ==> longer_value is None,
        '0' <= last <= '9' ==> {
            let d = last as int - '0' as int;
            if text@.len() == 0 || text@ == seq!['+'] {
                longer_value matches Some(v) && v == d
            } else if value matches Some(v) && 10 * v + d <= 65535 {
                longer_value matches Some(w) && w == 10 * value->0 + d
            } else {
                longer_value is None
            }
        },
{
    let s = text@;
    let t = longer@;
    let a = unsigned_part(s);
    let b = unsigned_part(t);
    if s.len() == 0 && last == '+' {
        assert(b.len() == 0);
    } else {
        assert(b =~= a.push(last));
        assert(b.drop_last() =~= a);
        assert(b[a.len() as int] == last);
        assert(all_digits(b) <==> all_digits(a) && is_digit(last)) by {
            if all_digits(b) {
                assert(is_digit(b[a.len() as int]));
                assert forall|i: int| 0 <= i < a.len() implies is_digit(#[trigger] a[i]) by {
                    assert(is_digit(b[i]));
                }
            }
        }
        assert(is_digit(last) ==> decimal_value(b) == 10 * decimal_value(a) + (last as int - 48));
        if a.len() == 0 {
            assert(decimal_value(a) == 0);
            assert(text@.len() == 0 || text@ =~= seq!['+']);
        }
        if text@ == seq!['+'] {
            assert(a.len() == 0);
        }
    }
}

/// Two texts are the same exactly when they are equally long and agree in every place.
pub proof fn law_same_text_agrees_in_every_place(a: &str, b: &str, same: bool)
    requires
        call_ensures(same_text, (a, b), same),
    ensures
        same <==> a@.len() == b@.len() && forall|i: int|
            0 <= i < a@.len() ==> #[trigger] a@[i] == b@[i],
{
    if a@.len() == b@.len() && forall|i: int| 0 <= i < a@.len() ==> #[trigger] a@[i] == b@[i] {
        assert(a@ =~= b@);
    }
}

/// The characters of a text are all there, in their places.
pub proof fn law_chars_stay_in_place(text: &str, chars: Vec<char>)
    requires
        call_ensures(chars_of, (text,), chars),
    ensures
        chars@.len() == text@.len(),
        forall|i: int| 0 <= i < text@.len() ==> #[trigger] chars@[i] == text@[i],
{
}

/// Any number can be written and any text read or compared.
pub proof fn law_any_text_is_taken(n: u64, a: &str, b: &str)
    ensures
        call_requires(decimal_text, (n,)),
        call_requires(read_u16, (a,)),
        call_requires(same_text, (a, b)),
        call_requires(chars_of, (a,)),
{
}

} // verus!
