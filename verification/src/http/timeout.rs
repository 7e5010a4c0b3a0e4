//! Reading a timeout in either of its two shapes: a number of seconds,
//! written in decimal with or without an exponent, or an object of whole
//! seconds and nanoseconds. Both are read to the exact length of time they
//! stand for, to the nanosecond.
use super::raw::ConnectTimout;
use crate::outside::{
    json_as_number, json_as_u64, json_get, json_number_text, spec_json_field, spec_json_number,
    spec_json_number_text, spec_json_u64,
};
use serde_json::Value;
use vstd::prelude::*;

verus! {

/// Whether the byte is an ASCII digit.
pub open spec fn spec_is_digit(byte: u8) -> bool {
    48 <= byte <= 57
}

pub open spec fn spec_all_digits(bytes: Seq<u8>) -> bool {
    forall|i: int| 0 <= i < bytes.len() ==> spec_is_digit(#[trigger] bytes[i])
}

/// The number that a run of digits writes in decimal.
pub open spec fn spec_digits_value(digits: Seq<u8>) -> nat
    decreases digits.len(),
{
    if digits.len() == 0 {
        0
    } else {
        spec_digits_value(digits.drop_last()) * 10 + (digits.last() - 48) as nat
    }
}

/// How many digits the text begins with.
pub open spec fn spec_whole_len(text: Seq<u8>) -> nat
    decreases text.len(),
{
    if text.len() == 0 || !spec_is_digit(text[0]) {
        0
    } else {
        1 + spec_whole_len(text.drop_first())
    }
}

/// The length of time as far as it can be held.
pub open spec fn spec_fit(nanos: nat) -> Option<u128> {
    if nanos <= u128::MAX {
        Some(nanos as u128)
    } else {
        None
    }
}

/// How many digits stand in the text from the given place on.
pub open spec fn spec_run(text: Seq<u8>, from: int) -> nat
    recommends
        0 <= from <= text.len(),
{
    spec_whole_len(text.skip(from))
}

/// The most digits that an exponent may have.
pub const EXPONENT_DIGITS: usize = 4;

/// How a decimal number is laid out in its text: so many digits before the
/// point, so many behind it, and the power of ten that the exponent names.
pub struct DecimalShape {
    pub whole: nat,
    pub fraction: nat,
    pub exponent: int,
}

/// The layout of a text that writes a number of seconds in decimal: one or
/// more digits; then, if a point follows, one or more digits behind it;
/// then, if an `e` or `E` follows, an exponent of one to four digits with
/// or without a sign before them; and nothing after that. A text of any
/// other form, one with a sign in front among them, has no layout.
pub open spec fn spec_shape(text: Seq<u8>) -> Option<DecimalShape> {
    let whole = spec_run(text, 0);
    let pointed = whole < text.len() && text[whole as int] == 46;
    let fraction = if pointed {
        spec_run(text, (whole + 1) as int)
    } else {
        0
    };
    let end: int = if pointed {
        (whole + 1 + fraction) as int
    } else {
        whole as int
    };
    if whole == 0 || (pointed && fraction == 0) {
        None
    } else if end == text.len() {
        Some(DecimalShape { whole, fraction, exponent: 0 })
    } else if text[end] != 101 && text[end] != 69 {
        None
    } else {
        let signed = end + 1 < text.len() && (text[end + 1] == 43 || text[end + 1] == 45);
        let from: int = if signed {
            end + 2
        } else {
            end + 1
        };
        let digits = spec_run(text, from);
        if digits == 0 || digits > EXPONENT_DIGITS || from + digits != text.len() {
            None
        } else {
            let magnitude = spec_digits_value(text.subrange(from, text.len() as int));
            Some(
                DecimalShape {
                    whole,
                    fraction,
                    exponent: if signed && text[end + 1] == 45 {
                        -magnitude
                    } else {
                        magnitude as int
                    },
                },
            )
        }
    }
}

/// The digit of the number at a place, counted from its first digit: the
/// digits before the point, then those behind it, then zeros.
pub open spec fn spec_digit_at(text: Seq<u8>, shape: DecimalShape, place: int) -> u8 {
    if place < shape.whole {
        text[place]
    } else if place < shape.whole + shape.fraction {
        text[place + 1]
    } else {
        48u8
    }
}

/// The digits that write the number in nanoseconds. The exponent and the
/// nine places of a nanosecond move the point to the right or to the left;
/// what then stands before the point are the nanoseconds, with zeros
/// where the number's own digits end, and what stands behind it is below a
/// nanosecond and dropped.
pub open spec fn spec_nanos_digits(text: Seq<u8>, shape: DecimalShape) -> Seq<u8> {
    let length = shape.whole + 9 + shape.exponent;
    Seq::new(
        if length > 0 {
            length as nat
        } else {
            0
        },
        |place: int| spec_digit_at(text, shape, place),
    )
}

/// The nanoseconds in a decimal number of seconds. A text that is no such
/// number, and a number too long to hold, have none.
pub open spec fn spec_parse_seconds(text: Seq<u8>) -> Option<u128> {
    match spec_shape(text) {
        Some(shape) => spec_fit(spec_digits_value(spec_nanos_digits(text, shape))),
        None => None,
    }
}

/// The digits that a text begins with are counted up to the first byte
/// that is none.
proof fn lemma_whole_len(text: Seq<u8>, digits: int)
    requires
        0 <= digits <= text.len(),
        forall|j: int| 0 <= j < digits ==> spec_is_digit(#[trigger] text[j]),
    ensures
        spec_whole_len(text) >= digits,
        digits == text.len() || !spec_is_digit(text[digits]) ==> spec_whole_len(text) == digits,
    decreases digits,
{
    if digits > 0 {
        let rest = text.drop_first();
        assert forall|j: int| 0 <= j < digits - 1 implies spec_is_digit(#[trigger] rest[j]) by {
            assert(rest[j] == text[j + 1]);
        }
        lemma_whole_len(rest, digits - 1);
        if digits < text.len() {
            assert(rest[digits - 1] == text[digits]);
        }
    }
}

/// One more digit multiplies by ten and adds the digit.
proof fn lemma_value_step(digits: Seq<u8>, upto: int)
    requires
        0 <= upto < digits.len(),
    ensures
        spec_digits_value(digits.take(upto + 1)) == spec_digits_value(digits.take(upto)) * 10 + (
        digits[upto] - 48) as nat,
{
    assert(digits.take(upto + 1).drop_last() =~= digits.take(upto));
    assert(digits.take(upto + 1).last() == digits[upto]);
}

/// A run of digits writes no less than any run it begins with.
proof fn lemma_value_grows(digits: Seq<u8>, upto: int)
    requires
        0 <= upto <= digits.len(),
        spec_all_digits(digits),
    ensures
        spec_digits_value(digits.take(upto)) <= spec_digits_value(digits),
    decreases digits.len() - upto,
{
    if upto == digits.len() {
        assert(digits.take(upto) =~= digits);
    } else {
        let shorter = digits.drop_last();
        assert(shorter =~= digits.take(digits.len() - 1));
        assert(spec_is_digit(digits[digits.len() - 1]));
        if upto == digits.len() - 1 {
            assert(digits.take(upto) =~= shorter);
        } else {
            assert(shorter.take(upto) =~= digits.take(upto));
            assert forall|i: int| 0 <= i < shorter.len() implies spec_is_digit(
                #[trigger] shorter[i],
            ) by {
                assert(shorter[i] == digits[i]);
            }
            lemma_value_grows(shorter, upto);
        }
    }
}

fn is_digit(byte: u8) -> (digit: bool)
    ensures
        digit == spec_is_digit(byte),
{
    48 <= byte && byte <= 57
}

/// Where the digits that begin at `from` end.
fn digit_run(text: &[u8], from: usize) -> (end: usize)
    requires
        from <= text@.len(),
    ensures
        from <= end <= text@.len(),
        end - from == spec_run(text@, from as int),
        forall|j: int| from <= j < end ==> spec_is_digit(#[trigger] text@[j]),
{
    let mut k: usize = from;
    while k < text.len() && is_digit(text[k])
        invariant
            from <= k <= text@.len(),
            forall|j: int| from <= j < k ==> spec_is_digit(#[trigger] text@[j]),
        decreases text@.len() - k,
    {
        k += 1;
    }
    proof {
        let rest = text@.skip(from as int);
        assert forall|j: int| 0 <= j < k - from implies spec_is_digit(#[trigger] rest[j]) by {
            assert(rest[j] == text@[from + j]);
        }
        if k < text@.len() {
            assert(rest[k - from] == text@[k as int]);
        }
        lemma_whole_len(rest, k - from);
    }
    k
}

/// The layout of a decimal number, as found in its text.
struct Scanned {
    whole: usize,
    fraction: usize,
    exponent: i32,
}

impl View for Scanned {
    type V = DecimalShape;

    closed spec fn view(&self) -> DecimalShape {
        DecimalShape {
            whole: self.whole as nat,
            fraction: self.fraction as nat,
            exponent: self.exponent as int,
        }
    }
}

/// Finds the layout of the text.
fn scan(text: &[u8]) -> (found: Option<Scanned>)
    ensures
        found.is_some() == spec_shape(text@).is_some(),
        found matches Some(shape) ==> {
            &&& Some(shape@) == spec_shape(text@)
            &&& shape.whole + shape.fraction + (if shape.fraction > 0 {
                1int
            } else {
                0int
            }) <= text@.len()
            &&& -9999 <= shape.exponent <= 9999
            &&& forall|j: int| 0 <= j < shape.whole ==> spec_is_digit(#[trigger] text@[j])
            &&& forall|j: int|
                shape.whole < j <= shape.whole + shape.fraction ==> spec_is_digit(
                    #[trigger] text@[j],
                )
        },
{
    let len = text.len();
    let whole = digit_run(text, 0);
    if whole == 0 {
        return None;
    }
    let pointed = whole < len && text[whole] == 46;
    let mut fraction: usize = 0;
    let mut end: usize = whole;
    if pointed {
        let stop = digit_run(text, whole + 1);
        fraction = stop - (whole + 1);
        if fraction == 0 {
            return None;
        }
        end = stop;
    }
    if end == len {
        return Some(Scanned { whole, fraction, exponent: 0 });
    }
    if text[end] != 101 && text[end] != 69 {
        return None;
    }
    let signed = end + 1 < len && (text[end + 1] == 43 || text[end + 1] == 45);
    let negative = signed && text[end + 1] == 45;
    let from: usize = if signed {
        end + 2
    } else {
        end + 1
    };
    let stop = digit_run(text, from);
    if stop == from || stop - from > EXPONENT_DIGITS || stop != len {
        return None;
    }
    let ghost digits = text@.subrange(from as int, len as int);
    let mut magnitude: i32 = 0;
    let mut k: usize = from;
    while k < stop
        invariant
            from <= k <= stop,
            stop == len,
            len == text@.len(),
            stop - from <= 4,
            digits == text@.subrange(from as int, len as int),
            forall|j: int| from <= j < stop ==> spec_is_digit(#[trigger] text@[j]),
            magnitude as nat == spec_digits_value(digits.take(k - from)),
            0 <= magnitude < spec_beyond((k - from) as nat),
        decreases stop - k,
    {
        proof {
            lemma_value_step(digits, k - from);
            assert(digits[k - from] == text@[k as int]);
        }
        magnitude = magnitude * 10 + (text[k] - 48) as i32;
        k += 1;
    }
    assert(digits.take(digits.len() as int) =~= digits);
    let exponent: i32 = if negative {
        -magnitude
    } else {
        magnitude
    };
    Some(Scanned { whole, fraction, exponent })
}

/// Reads a decimal number of seconds to nanoseconds.
pub fn parse_seconds(text: &[u8]) -> (nanos: Option<u128>)
    ensures
        nanos == spec_parse_seconds(text@),
{
    let shape = match scan(text) {
        Some(shape) => shape,
        None => {
            return None;
        },
    };
    let ghost digits = spec_nanos_digits(text@, shape@);
    let length: i128 = shape.whole as i128 + 9 + shape.exponent as i128;
    if length <= 0 {
        assert(digits.len() == 0);
        return Some(0);
    }
    let len = text.len();
    let count: u128 = length as u128;
    let written: u128 = shape.whole as u128 + shape.fraction as u128;
    assert(spec_all_digits(digits));
    let mut total: u128 = 0;
    let mut i: u128 = 0;
    while i < count
        invariant
            i <= count,
            count == digits.len(),
            digits == spec_nanos_digits(text@, shape@),
            spec_all_digits(digits),
            written == shape.whole + shape.fraction,
            len == text@.len(),
            spec_shape(text@) == Some(shape@),
            shape.whole + shape.fraction + (if shape.fraction > 0 {
                1int
            } else {
                0int
            }) <= text@.len(),
            forall|j: int| 0 <= j < shape.whole ==> spec_is_digit(#[trigger] text@[j]),
            forall|j: int|
                shape.whole < j <= shape.whole + shape.fraction ==> spec_is_digit(
                    #[trigger] text@[j],
                ),
            total as nat == spec_digits_value(digits.take(i as int)),
        decreases count - i,
    {
        let digit: u128 = if i < shape.whole as u128 {
            (text[i as usize] - 48) as u128
        } else if i < written {
            (text[i as usize + 1] - 48) as u128
        } else {
            0
        };
        proof {
            assert(digits[i as int] == spec_digit_at(text@, shape@, i as int));
            assert(digits[i as int] == digit + 48);
            lemma_value_step(digits, i as int);
        }
        if total > (u128::MAX - digit) / 10 {
            proof {
                lemma_value_grows(digits, i as int + 1);
            }
            return None;
        }
        total = total * 10 + digit;
        i += 1;
    }
    assert(digits.take(count as int) =~= digits);
    Some(total)
}

/// The least number that takes more than `digits` digits to write, for up
/// to nine digits.
pub open spec fn spec_beyond(digits: nat) -> nat {
    if digits == 0 {
        1
    } else if digits == 1 {
        10
    } else if digits == 2 {
        100
    } else if digits == 3 {
        1_000
    } else if digits == 4 {
        10_000
    } else if digits == 5 {
        100_000
    } else if digits == 6 {
        1_000_000
    } else if digits == 7 {
        10_000_000
    } else if digits == 8 {
        100_000_000
    } else {
        1_000_000_000
    }
}

impl ConnectTimout {
    /// The timeout that the two shapes make, as far as each was found: a
    /// number wins over an object, and an object needs both of its fields.
    pub open spec fn spec_from_shapes(
        number: Option<Seq<u8>>,
        secs: Option<u64>,
        nanos: Option<u64>,
    ) -> Option<ConnectTimout> {
        match number {
            Some(text) => match spec_parse_seconds(text) {
                Some(total) => Some(ConnectTimout::Number(total)),
                None => None,
            },
            None => match (secs, nanos) {
                (Some(secs), Some(nanos)) => Some(ConnectTimout::Duration { nanos, secs }),
                _ => None,
            },
        }
    }

    /// Decides between the shapes. `number` is the text of the value where
    /// the value is a number; `secs` and `nanos` are its fields of these
    /// names where it has them as unsigned integers.
    pub fn from_shapes(number: Option<&[u8]>, secs: Option<u64>, nanos: Option<u64>) -> (timeout:
        Option<ConnectTimout>)
        ensures
            timeout == Self::spec_from_shapes(
                match number {
                    Some(text) => Some(text@),
                    None => None,
                },
                secs,
                nanos,
            ),
    {
        match number {
            Some(text) => match parse_seconds(text) {
                Some(total) => Some(ConnectTimout::Number(total)),
                None => None,
            },
            None => match (secs, nanos) {
                (Some(secs), Some(nanos)) => Some(ConnectTimout::Duration { nanos, secs }),
                _ => None,
            },
        }
    }

    /// The field of the given name in a JSON value as an unsigned integer,
    /// where the value has such a field.
    pub open spec fn spec_field_u64(value: Value, key: Seq<char>) -> Option<u64> {
        match spec_json_field(value, key) {
            Some(field) => spec_json_u64(field),
            None => None,
        }
    }

    /// The text of a JSON value where the value is a number.
    pub open spec fn spec_number_text(value: Value) -> Option<Seq<u8>> {
        match spec_json_number(value) {
            Some(number) => Some(spec_json_number_text(number)),
            None => None,
        }
    }

    /// The timeout that a JSON value is, in either shape.
    pub open spec fn spec_from_json(value: Value) -> Option<ConnectTimout> {
        Self::spec_from_shapes(
            Self::spec_number_text(value),
            Self::spec_field_u64(value, "secs"@),
            Self::spec_field_u64(value, "nanos"@),
        )
    }

    /// Reads a timeout from a JSON value: a number written in decimal, or an
    /// object with the fields `secs` and `nanos`. What the value holds is
    /// asked of its own crate; [`ConnectTimout::from_shapes`] decides on
    /// the answers.
    pub fn from_json(value: &Value) -> (timeout: Option<ConnectTimout>)
        ensures
            timeout == Self::spec_from_json(*value),
    {
        let secs = match json_get(value, "secs") {
            Some(field) => json_as_u64(field),
            None => None,
        };
        let nanos = match json_get(value, "nanos") {
            Some(field) => json_as_u64(field),
            None => None,
        };
        match json_as_number(value) {
            Some(number) => {
                let text = json_number_text(number);
                Self::from_shapes(Some(text.as_slice()), secs, nanos)
            },
            None => Self::from_shapes(None, secs, nanos),
        }
    }

    /// A number and an object of the same length of time are read to
    /// timeouts that mean the same.
    pub proof fn lemma_shapes_read_alike(text: Seq<u8>, secs: u64, nanos: u64)
        requires
            spec_parse_seconds(text) == Some(
                ((secs as nat) * 1_000_000_000 + (nanos as nat)) as u128,
            ),
        ensures
            Self::spec_from_shapes(Some(text), None, None) matches Some(number)
                && Self::spec_from_shapes(None, Some(secs), Some(nanos)) matches Some(object)
                && number.spec_same_duration(object),
    {
        assert((secs as nat) * 1_000_000_000 + (nanos as nat) <= u128::MAX) by (nonlinear_arith)
            requires
                secs <= 0xffff_ffff_ffff_ffff,
                nanos <= 0xffff_ffff_ffff_ffff,
        ;
    }
}

} // verus!
