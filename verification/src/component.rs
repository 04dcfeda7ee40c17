//! Components: the named sliders of the voice that is selected, such as its
//! emotions.
//!
//! Which values a component takes depends on the voice and is known to the
//! host alone. The nominal range 0..=100 is therefore tested when a value is
//! set, not built into a type.

use vstd::prelude::*;
use crate::error::{CevioError, NativeError};

verus! {

/// Highest value a component is asked to take.
pub const MAX_COMPONENT_VALUE: u8 = 100;

/// The character that stands for the digit `d`.
pub open spec fn digit_char(d: nat) -> char {
    if d == 0 {
        '0'
    } else if d == 1 {
        '1'
    } else if d == 2 {
        '2'
    } else if d == 3 {
        '3'
    } else if d == 4 {
        '4'
    } else if d == 5 {
        '5'
    } else if d == 6 {
        '6'
    } else if d == 7 {
        '7'
    } else if d == 8 {
        '8'
    } else {
        '9'
    }
}

/// The number `n` written in decimal digits, without leading zeros.
pub open spec fn decimal_text(n: nat) -> Seq<char>
    decreases n,
{
    if n < 10 {
        seq![digit_char(n)]
    } else {
        decimal_text(n / 10).push(digit_char(n % 10))
    }
}

/// Why the component value `value` is refused.
pub open spec fn refusal_text(value: u8) -> Seq<char> {
    "Component value must be 0-100, got "@ + decimal_text(value as nat)
}

/// The digit `d` as text.
fn digit_text(d: u8) -> (text: &'static str)
    requires
        d < 10,
    ensures
        text@ == seq![digit_char(d as nat)],
{
    proof {
        reveal_strlit("0");
        reveal_strlit("1");
        reveal_strlit("2");
        reveal_strlit("3");
        reveal_strlit("4");
        reveal_strlit("5");
        reveal_strlit("6");
        reveal_strlit("7");
        reveal_strlit("8");
        reveal_strlit("9");
    }
    let text = match d {
        0 => "0",
        1 => "1",
        2 => "2",
        3 => "3",
        4 => "4",
        5 => "5",
        6 => "6",
        7 => "7",
        8 => "8",
        _ => "9",
    };
    assert(text@ =~= seq![digit_char(d as nat)]);
    text
}

/// Writes `value` in decimal digits at the end of `text`.
fn append_decimal(text: &mut String, value: u8)
    ensures
        final(text)@ == old(text)@ + decimal_text(value as nat),
{
    let ghost n = value as nat;
    if value >= 100 {
        text.append(digit_text(value / 100));
    }
    if value >= 10 {
        text.append(digit_text((value / 10) % 10));
    }
    text.append(digit_text(value % 10));
    proof {
        if n >= 100 {
            assert(decimal_text(n / 100) == seq![digit_char(n / 100)]);
            assert(decimal_text(n / 10) == decimal_text(n / 100).push(digit_char((n / 10) % 10)))
                by {
                assert((n / 10) / 10 == n / 100);
            }
        } else if n >= 10 {
            assert(decimal_text(n / 10) == seq![digit_char(n / 10)]);
        }
        assert(text@ =~= old(text)@ + decimal_text(n));
    }
}

/// One slider of the selected voice: the identifier the host knows it by and
/// the name it is shown under, both as they were when the sliders were
/// listed.
#[derive(Clone, Debug, PartialEq, Eq)]
pub struct Component {
    /// Identifier.
    pub id: String,
    /// Name on display.
    pub name: String,
}

impl Component {
    /// The component the host lists under `id` and `name`.
    pub fn new(id: &str, name: &str) -> (component: Self)
        ensures
            component.id@ == id@,
            component.name@ == name@,
    {
        Component { id: id.to_owned(), name: name.to_owned() }
    }

    /// Reads the host's answer to the question for a component's value: the
    /// failure of the call, or the low eight bits of the number it returned.
    pub fn value(reply: Result<u32, NativeError>) -> (value: Result<u8, CevioError>)
        ensures
            match reply {
                Ok(raw) => value matches Ok(v) && v as int == raw as int % 256,
                Err(e) => value == Err::<u8, CevioError>(CevioError::Windows(e)),
            },
    {
        match reply {
            Ok(raw) => {
                let low = #[verifier::truncate] (raw as u8);
                assert(low == raw % 256) by (bit_vector)
                    requires
                        low == #[verifier::truncate] (raw as u8),
                ;
                Ok(low)
            },
            Err(e) => Err(CevioError::Windows(e)),
        }
    }

    /// The number to hand to the host to set a component to `value`, or the
    /// refusal of a `value` above 100. A refused value leads to no call.
    pub fn set_value(value: u8) -> (request: Result<u32, CevioError>)
        ensures
            value <= 100 ==> request == Ok::<u32, CevioError>(value as u32),
            value > 100 ==> (request matches Err(CevioError::InvalidParameter(reason))
                && reason@ == refusal_text(value)),
    {
        if value > MAX_COMPONENT_VALUE {
            let mut reason = String::from_str("Component value must be 0-100, got ");
            append_decimal(&mut reason, value);
            Err(CevioError::InvalidParameter(reason))
        } else {
            Ok(value as u32)
        }
    }
}

} // verus!
