use vstd::prelude::*;
use crate::text::{decimal, push_char, push_decimal};
use crate::value::{is_nan, is_nan_bits, TypedValue, ValueModel};

verus! {

/// Clears the sign bit of a double's bit pattern. For doubles that are not
/// NaN, IEEE-754 orders the cleared patterns as it orders the magnitudes.
pub const MAGNITUDE_MASK: u64 = 0x7fff_ffff_ffff_ffff;
/// The bit pattern of the default threshold, 1e-6.
pub const DEFAULT_THRESHOLD: u64 = 0x3eb0_c6f7_a0b5_ed8d;
/// The bit pattern of 1e-10: a float of at most this magnitude reads as zero.
pub const NEGLIGIBLE_LIMIT: u64 = 0x3ddb_7cdf_d9d7_bdbb;

/// How a value is to be shown. `Scientific` is six fractional digits in
/// scientific notation (`5.000000e-7`), `Negligible` is `0.0`, `Fixed` is six
/// fractional digits in fixed-point notation; `Plain` is finished text.
#[derive(Clone, Debug)]
pub enum NumberText {
    Scientific(u64),
    Negligible,
    Fixed(u64),
    Plain(String),
}

/// The mathematical model of a [`NumberText`].
pub enum NumberTextModel {
    Scientific(u64),
    Negligible,
    Fixed(u64),
    Plain(Seq<char>),
}

impl View for NumberText {
    type V = NumberTextModel;

    open spec fn view(&self) -> NumberTextModel {
        match self {
            NumberText::Scientific(b) => NumberTextModel::Scientific(*b),
            NumberText::Negligible => NumberTextModel::Negligible,
            NumberText::Fixed(b) => NumberTextModel::Fixed(*b),
            NumberText::Plain(s) => NumberTextModel::Plain(s@),
        }
    }
}

/// The magnitude part of a double's bit pattern.
pub open spec fn magnitude(bits: u64) -> u64 {
    bits & MAGNITUDE_MASK
}

/// How a float is shown against a threshold: magnitudes up to 1e-10
/// read as zero, magnitudes below the threshold's go to scientific notation,
/// and all others to fixed-point. A NaN threshold compares as nothing does,
/// so it sends no float to scientific notation. Exact zero reads as zero.
pub open spec fn float_text(bits: u64, threshold: u64) -> NumberTextModel {
    if magnitude(bits) <= NEGLIGIBLE_LIMIT {
        NumberTextModel::Negligible
    } else if !is_nan_bits(threshold) && magnitude(bits) < magnitude(threshold) {
        NumberTextModel::Scientific(bits)
    } else {
        NumberTextModel::Fixed(bits)
    }
}

/// The text of a signed integer: an optional minus sign, then its digits.
pub open spec fn signed_decimal(v: i64) -> Seq<char> {
    if v < 0 {
        seq!['-'] + decimal((-v) as nat)
    } else {
        decimal(v as nat)
    }
}

/// The text of a boolean.
pub open spec fn bool_text(b: bool) -> Seq<char> {
    if b {
        seq!['t', 'r', 'u', 'e']
    } else {
        seq!['f', 'a', 'l', 's', 'e']
    }
}

/// How a value is shown: floats by [`float_text`], every other value by its
/// natural text.
pub open spec fn number_text(v: ValueModel, threshold: u64) -> NumberTextModel {
    match v {
        ValueModel::Float(b) => float_text(b, threshold),
        ValueModel::Unsigned(u) => NumberTextModel::Plain(decimal(u as nat)),
        ValueModel::Signed(s) => NumberTextModel::Plain(signed_decimal(s)),
        ValueModel::Bool(b) => NumberTextModel::Plain(bool_text(b)),
        ValueModel::Str(s) => NumberTextModel::Plain(s),
        ValueModel::Other(s) => NumberTextModel::Plain(s),
    }
}

/// Shows a float against a threshold (see [`float_text`]).
pub fn format_float(bits: u64, threshold: u64) -> (r: NumberText)
    ensures
        r@ == float_text(bits, threshold),
{
    let m = bits & MAGNITUDE_MASK;
    if m <= NEGLIGIBLE_LIMIT {
        NumberText::Negligible
    } else if !is_nan(threshold) && m < threshold & MAGNITUDE_MASK {
        NumberText::Scientific(bits)
    } else {
        NumberText::Fixed(bits)
    }
}

/// Appends the text of a signed integer.
pub fn push_signed(s: &mut String, v: i64)
    ensures
        final(s)@ == old(s)@ + signed_decimal(v),
{
    if v < 0 {
        push_char(s, '-');
        let abs: u64 = ((-(v + 1)) as u64) + 1;
        push_decimal(s, abs);
        assert(s@ =~= old(s)@ + signed_decimal(v));
    } else {
        push_decimal(s, v as u64);
    }
}

/// Shows a value (see [`number_text`]).
pub fn format_value(v: &TypedValue, threshold: u64) -> (r: NumberText)
    ensures
        r@ == number_text(v@, threshold),
{
    match v {
        TypedValue::Float(b) => format_float(*b, threshold),
        TypedValue::Unsigned(u) => {
            let mut s = String::new();
            push_decimal(&mut s, *u);
            assert(s@ =~= decimal(*u as nat));
            NumberText::Plain(s)
        },
        TypedValue::Signed(i) => {
            let mut s = String::new();
            push_signed(&mut s, *i);
            assert(s@ =~= signed_decimal(*i));
            NumberText::Plain(s)
        },
        TypedValue::Bool(b) => {
            let mut s = String::new();
            if *b {
                push_char(&mut s, 't');
                push_char(&mut s, 'r');
                push_char(&mut s, 'u');
                push_char(&mut s, 'e');
            } else {
                push_char(&mut s, 'f');
                push_char(&mut s, 'a');
                push_char(&mut s, 'l');
                push_char(&mut s, 's');
                push_char(&mut s, 'e');
            }
            assert(s@ =~= bool_text(*b));
            NumberText::Plain(s)
        },
        TypedValue::Str(t) => NumberText::Plain(t.clone()),
        TypedValue::Other(t) => NumberText::Plain(t.clone()),
    }
}

} // verus!
