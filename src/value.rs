use vstd::prelude::*;
use vstd::utf8::{decode_utf8, valid_utf8};

verus! {

/// Tag of an unsigned 64-bit input.
pub const TAG_UNSIGNED: u32 = 0;
/// Tag of a signed 64-bit input.
pub const TAG_SIGNED: u32 = 1;
/// Tag of a 64-bit floating-point input.
pub const TAG_FLOAT: u32 = 2;
/// Tag of a boolean input.
pub const TAG_BOOL: u32 = 3;
/// Tag of a text input.
pub const TAG_STRING: u32 = 4;

/// The payload of one foreign input. `word` holds the eight bytes that the
/// foreign union holds (an integer, the bit pattern of a double, or a
/// boolean, read as zero or non-zero); `text` holds the bytes that a string
/// payload points at, without the terminating NUL.
#[derive(Clone, Debug)]
pub struct RTLolaValueData {
    pub word: u64,
    pub text: Vec<u8>,
}

/// One foreign input: a name, a type tag and a payload that should agree
/// with the tag.
#[derive(Clone, Debug)]
pub struct RTLolaInput {
    pub name: String,
    pub type_: u32,
    pub value: RTLolaValueData,
}

/// A value as the engine reads it. Floats are held as their IEEE-754 bit
/// pattern and are never NaN when they come from marshaling. `Other`
/// carries, in the engine's own text form, a value of a kind that the
/// foreign boundary does not offer (a tuple, bytes, a decimal, none).
#[derive(Clone, Debug)]
pub enum TypedValue {
    Unsigned(u64),
    Signed(i64),
    Float(u64),
    Bool(bool),
    Str(String),
    Other(String),
}

/// The mathematical model of a [`TypedValue`].
pub enum ValueModel {
    Unsigned(u64),
    Signed(i64),
    Float(u64),
    Bool(bool),
    Str(Seq<char>),
    Other(Seq<char>),
}

impl View for TypedValue {
    type V = ValueModel;

    open spec fn view(&self) -> ValueModel {
        match self {
            TypedValue::Unsigned(u) => ValueModel::Unsigned(*u),
            TypedValue::Signed(s) => ValueModel::Signed(*s),
            TypedValue::Float(b) => ValueModel::Float(*b),
            TypedValue::Bool(b) => ValueModel::Bool(*b),
            TypedValue::Str(s) => ValueModel::Str(s@),
            TypedValue::Other(s) => ValueModel::Other(s@),
        }
    }
}

/// Why a foreign input could not be turned into a value.
#[derive(PartialEq, Eq, Structural, Clone, Copy, Debug)]
pub enum MarshalError {
    InvalidTag,
    InvalidFloat,
    InvalidString,
}

/// The exponent field of a double's bit pattern.
pub open spec fn exponent_bits(bits: u64) -> u64 {
    (bits >> 52u64) & 0x7ffu64
}

/// The fraction field of a double's bit pattern.
pub open spec fn fraction_bits(bits: u64) -> u64 {
    bits & 0x000f_ffff_ffff_ffffu64
}

/// IEEE-754: a double is NaN when its exponent is all ones and its fraction
/// is not zero.
pub open spec fn is_nan_bits(bits: u64) -> bool {
    exponent_bits(bits) == 0x7ffu64 && fraction_bits(bits) != 0
}

/// What marshaling makes of a tag and a payload.
pub open spec fn marshal_spec(tag: u32, word: u64, text: Seq<u8>) -> Result<ValueModel, MarshalError> {
    if tag == TAG_UNSIGNED {
        Ok(ValueModel::Unsigned(word))
    } else if tag == TAG_SIGNED {
        Ok(ValueModel::Signed(word as i64))
    } else if tag == TAG_FLOAT {
        if is_nan_bits(word) {
            Err(MarshalError::InvalidFloat)
        } else {
            Ok(ValueModel::Float(word))
        }
    } else if tag == TAG_BOOL {
        Ok(ValueModel::Bool(word != 0))
    } else if tag == TAG_STRING {
        if valid_utf8(text) {
            Ok(ValueModel::Str(decode_utf8(text)))
        } else {
            Err(MarshalError::InvalidString)
        }
    } else {
        Err(MarshalError::InvalidTag)
    }
}

/// What marshaling makes of one foreign input.
pub open spec fn marshal_input_spec(input: &RTLolaInput) -> Result<ValueModel, MarshalError> {
    marshal_spec(input.type_, input.value.word, input.value.text@)
}

/// Whether a double's bit pattern is NaN.
pub fn is_nan(bits: u64) -> (r: bool)
    ensures
        r == is_nan_bits(bits),
{
    (bits >> 52u64) & 0x7ffu64 == 0x7ffu64 && bits & 0x000f_ffff_ffff_ffffu64 != 0
}

/// Relies on `String::from_utf8`: it accepts a byte vector exactly when the
/// bytes are well-formed UTF-8, and then holds the characters they encode.
#[verifier::external_body]
fn decode_text(bytes: Vec<u8>) -> (r: Option<String>)
    ensures
        r is Some <==> valid_utf8(bytes@),
        r matches Some(s) ==> s@ == decode_utf8(bytes@),
{
    String::from_utf8(bytes).ok()
}

/// Turns one foreign input into a value, copying a string payload into
/// owned storage.
pub fn marshal_input(input: &RTLolaInput) -> (r: Result<TypedValue, MarshalError>)
    ensures
        match (r, marshal_input_spec(input)) {
            (Ok(v), Ok(m)) => v@ == m,
            (Err(e), Err(f)) => e == f,
            _ => false,
        },
{
    let word = input.value.word;
    if input.type_ == TAG_UNSIGNED {
        Ok(TypedValue::Unsigned(word))
    } else if input.type_ == TAG_SIGNED {
        Ok(TypedValue::Signed(word as i64))
    } else if input.type_ == TAG_FLOAT {
        if is_nan(word) {
            Err(MarshalError::InvalidFloat)
        } else {
            Ok(TypedValue::Float(word))
        }
    } else if input.type_ == TAG_BOOL {
        Ok(TypedValue::Bool(word != 0))
    } else if input.type_ == TAG_STRING {
        let bytes = vstd::slice::slice_to_vec(input.value.text.as_slice());
        match decode_text(bytes) {
            Some(s) => Ok(TypedValue::Str(s)),
            None => Err(MarshalError::InvalidString),
        }
    } else {
        Err(MarshalError::InvalidTag)
    }
}

/// Every input of the sequence marshals successfully.
pub open spec fn all_marshal(inputs: Seq<RTLolaInput>) -> bool {
    forall|i: int| 0 <= i < inputs.len() ==> (#[trigger] marshal_input_spec(&inputs[i])) is Ok
}

/// Whether `i` is the index of the first input that fails to marshal.
pub open spec fn first_failure(inputs: Seq<RTLolaInput>, i: int) -> bool {
    0 <= i < inputs.len() && marshal_input_spec(&inputs[i]) is Err
        && forall|j: int| 0 <= j < i ==> (#[trigger] marshal_input_spec(&inputs[j])) is Ok
}

/// Marshals a batch of inputs in order. It fails with the error of the
/// first input that fails, and otherwise yields one value per input.
pub fn marshal_inputs(inputs: &Vec<RTLolaInput>) -> (r: Result<Vec<TypedValue>, MarshalError>)
    ensures
        r is Ok <==> all_marshal(inputs@),
        r matches Ok(vs) ==> vs@.len() == inputs@.len() && forall|i: int|
            #![trigger vs@[i]]
            #![trigger marshal_input_spec(&inputs@[i])]
            0 <= i < vs@.len() ==> marshal_input_spec(&inputs@[i]) == Ok::<ValueModel, MarshalError>(vs@[i]@),
        r matches Err(e) ==> exists|i: int|
            first_failure(inputs@, i) && marshal_input_spec(&inputs@[i]) == Err::<ValueModel, MarshalError>(e),
{
    let mut values: Vec<TypedValue> = Vec::new();
    let mut i: usize = 0;
    while i < inputs.len()
        invariant
            i <= inputs@.len(),
            values@.len() == i,
            forall|j: int|
                #![trigger values@[j]]
                #![trigger marshal_input_spec(&inputs@[j])]
                0 <= j < i ==> marshal_input_spec(&inputs@[j]) == Ok::<ValueModel, MarshalError>(values@[j]@),
        decreases inputs@.len() - i,
    {
        match marshal_input(&inputs[i]) {
            Ok(v) => values.push(v),
            Err(e) => {
                assert(first_failure(inputs@, i as int));
                return Err(e);
            },
        }
        i = i + 1;
    }
    Ok(values)
}

/// A float payload is rejected exactly when it is NaN; every other bit
/// pattern, finite or infinite, becomes that same float.
pub proof fn float_marshaling_rejects_only_nan(word: u64, text: Seq<u8>)
    ensures
        marshal_spec(TAG_FLOAT, word, text) == Err::<ValueModel, MarshalError>(MarshalError::InvalidFloat)
            <==> is_nan_bits(word),
        !is_nan_bits(word) ==> marshal_spec(TAG_FLOAT, word, text) == Ok::<ValueModel, MarshalError>(
            ValueModel::Float(word),
        ),
{
}

} // verus!
