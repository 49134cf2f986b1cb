//! Engine values as plain data.
//!
//! An [`EngineValue`] is a value of the script engine held in the library's own
//! terms, so that the codec can be stated and proved on it.  Floating point
//! numbers are carried as their IEEE 754 binary64 bit patterns, arbitrary
//! precision integers as a sign and base 2^32 digits.

use vstd::prelude::*;
use crate::text::optional_text;

verus! {

/// The exponent field of a binary64 bit pattern.
pub open spec fn float_exponent(bits: u64) -> u64 {
    (bits >> 52) & 0x7ff
}

/// The fraction field of a binary64 bit pattern.
pub open spec fn float_fraction(bits: u64) -> u64 {
    bits & 0xf_ffff_ffff_ffff
}

/// Whether the bit pattern denotes a finite number.
pub open spec fn float_is_finite(bits: u64) -> bool {
    float_exponent(bits) != 0x7ff
}

/// Whether the bit pattern denotes a NaN.
pub open spec fn float_is_nan(bits: u64) -> bool {
    float_exponent(bits) == 0x7ff && float_fraction(bits) != 0
}

/// Whether the sign bit of the bit pattern is set.
pub open spec fn float_sign_negative(bits: u64) -> bool {
    bits >> 63 == 1
}

/// Tells whether a binary64 bit pattern denotes a finite number.
pub fn is_finite_bits(bits: u64) -> (r: bool)
    ensures
        r == float_is_finite(bits),
{
    (bits >> 52) & 0x7ff != 0x7ff
}

/// Tells whether a binary64 bit pattern denotes a NaN.
pub fn is_nan_bits(bits: u64) -> (r: bool)
    ensures
        r == float_is_nan(bits),
{
    (bits >> 52) & 0x7ff == 0x7ff && bits & 0xf_ffff_ffff_ffff != 0
}

/// Tells whether the sign bit of a binary64 bit pattern is clear.
pub fn is_sign_positive_bits(bits: u64) -> (r: bool)
    ensures
        r == !float_sign_negative(bits),
{
    bits >> 63 != 1
}

/// The bit pattern of the floating point number nearest to an integer of
/// at least 2^63, the one with the even fraction where two are as near: the
/// upper 53 bits of the integer are kept, and rounded up by what the lower
/// 11 bits hold.
pub open spec fn float_of_large(n: u64) -> u64 {
    let kept = n >> 11;
    let rest = n & 0x7ff;
    if rest < 0x400 || (rest == 0x400 && kept & 1 == 0) {
        (1086u64 << 52) | (kept & 0xf_ffff_ffff_ffff)
    } else if kept == 0x1f_ffff_ffff_ffff {
        1087u64 << 52
    } else {
        (1086u64 << 52) | (((kept + 1) as u64) & 0xf_ffff_ffff_ffff)
    }
}

/// Gives the bit pattern of the floating point number nearest to an integer
/// of at least 2^63, as the conversion of the language rounds.
pub fn large_to_float(n: u64) -> (bits: u64)
    ensures
        bits == float_of_large(n),
{
    let kept: u64 = n >> 11;
    let rest: u64 = n & 0x7ff;
    assert(n >> 11 <= 0x1f_ffff_ffff_ffff) by (bit_vector);
    if rest < 0x400 || (rest == 0x400 && kept & 1 == 0) {
        (1086u64 << 52) | (kept & 0xf_ffff_ffff_ffff)
    } else if kept == 0x1f_ffff_ffff_ffff {
        1087u64 << 52
    } else {
        (1086u64 << 52) | ((kept + 1) & 0xf_ffff_ffff_ffff)
    }
}

/// The number that base 2^32 digits denote, least significant digit first.
pub open spec fn magnitude(digits: Seq<u32>) -> nat
    decreases digits.len(),
{
    if digits.len() == 0 {
        0
    } else {
        (digits[0] + 0x1_0000_0000 * magnitude(digits.drop_first())) as nat
    }
}

/// An integer of arbitrary size: a sign and base 2^32 digits, least
/// significant digit first.  Leading zero digits and a negative zero are
/// allowed and denote the same integer as their normal forms.
#[derive(Debug, PartialEq, Eq)]
pub struct BigInteger {
    pub negative: bool,
    pub digits: Vec<u32>,
}

impl View for BigInteger {
    type V = int;

    /// The integer denoted.
    open spec fn view(&self) -> int {
        if self.negative {
            -(magnitude(self.digits@) as int)
        } else {
            magnitude(self.digits@) as int
        }
    }
}

/// The character of a decimal digit.
pub open spec fn digit_char(d: int) -> char {
    seq!['0', '1', '2', '3', '4', '5', '6', '7', '8', '9'][d]
}

/// The decimal digits of a natural number, without leading zeros.
pub open spec fn decimal_digits(n: nat) -> Seq<char>
    decreases n,
{
    if n < 10 {
        seq![digit_char(n as int)]
    } else {
        decimal_digits(n / 10).push(digit_char((n % 10) as int))
    }
}

/// The decimal text of an integer: a minus sign where it is negative, then
/// the digits of its magnitude.
pub open spec fn decimal_text(v: int) -> Seq<char> {
    if v < 0 {
        seq!['-'] + decimal_digits((-v) as nat)
    } else {
        decimal_digits(v as nat)
    }
}

/// Whether an integer is in the range of `i64`.
pub open spec fn fits_i64(v: int) -> bool {
    i64::MIN <= v <= i64::MAX
}

/// Converts a big integer to `i64` with `ToPrimitive::to_i64` of
/// `num_traits`, on the `num_bigint::BigInt` built from the sign and the
/// digits.  The result is the integer where it is in the range of `i64`, and
/// absent where it is not.
#[verifier::external_body]
pub(crate) fn bigint_to_i64(n: &BigInteger) -> (r: Option<i64>)
    ensures
        r == (if fits_i64(n@) {
            Some(n@ as i64)
        } else {
            None::<i64>
        }),
{
    let sign = if n.negative { num_bigint::Sign::Minus } else { num_bigint::Sign::Plus };
    num_traits::ToPrimitive::to_i64(&num_bigint::BigInt::new(sign, n.digits.clone()))
}

/// Renders a big integer with the `Display` of `num_bigint::BigInt`, built
/// from the sign and the digits.  The result is the decimal text of the
/// integer.
#[verifier::external_body]
pub(crate) fn bigint_to_decimal(n: &BigInteger) -> (s: String)
    ensures
        s@ == decimal_text(n@),
{
    let sign = if n.negative { num_bigint::Sign::Minus } else { num_bigint::Sign::Plus };
    num_bigint::BigInt::new(sign, n.digits.clone()).to_string()
}

/// A value of the script engine.
///
/// The variants that hold a text (`Type`, `BuiltinFunction`, `Repr`, `Cycle`,
/// `Opaque`) stand for engine objects of which only a rendering crosses the
/// boundary.
#[derive(Debug, PartialEq, Eq)]
pub enum EngineValue {
    /// The engine's none value.
    Null,
    /// The ellipsis marker.
    Ellipsis,
    /// The not-implemented marker.
    NotImplemented,
    Bool(bool),
    /// A fixed-width integer.
    Int(i64),
    /// An integer of arbitrary size.
    BigInt(BigInteger),
    /// A floating point number, as its binary64 bit pattern.
    Float(u64),
    String(String),
    Bytes(Vec<u8>),
    List(Vec<EngineValue>),
    Tuple(Vec<EngineValue>),
    /// The values of a named tuple, in field order.
    NamedTuple(Vec<EngineValue>),
    /// A mapping, as its entries in insertion order.
    Dict(Vec<(EngineValue, EngineValue)>),
    MutableSet(Vec<EngineValue>),
    FrozenSet(Vec<EngineValue>),
    /// A filesystem path.
    Path(String),
    /// The attributes of a class instance, in order.
    Instance(Vec<(EngineValue, EngineValue)>),
    /// An exception object: the name of its type and its argument.
    Exception { exc_type: String, arg: Option<String> },
    /// A type object, as its display text.
    Type(String),
    /// A builtin function, as its debug text.
    BuiltinFunction(String),
    /// A value the engine could only render.
    Repr(String),
    /// A reference back into an enclosing container, as its placeholder.
    Cycle(String),
    /// Any other engine object, as its display text.
    Opaque(String),
}

/// The mathematical model of an [`EngineValue`].
#[verifier::ext_equal]
pub enum EngineModel {
    Null,
    Ellipsis,
    NotImplemented,
    Bool(bool),
    Int(i64),
    BigInt(int),
    Float(u64),
    Text(Seq<char>),
    Bytes(Seq<u8>),
    List(Seq<EngineModel>),
    Tuple(Seq<EngineModel>),
    NamedTuple(Seq<EngineModel>),
    Dict(Seq<(EngineModel, EngineModel)>),
    MutableSet(Seq<EngineModel>),
    FrozenSet(Seq<EngineModel>),
    Path(Seq<char>),
    Instance(Seq<(EngineModel, EngineModel)>),
    Exception { exc_type: Seq<char>, arg: Option<Seq<char>> },
    Type(Seq<char>),
    BuiltinFunction(Seq<char>),
    Repr(Seq<char>),
    Cycle(Seq<char>),
    Opaque(Seq<char>),
}

/// The models of a sequence of values, element by element.
pub open spec fn values_view(items: Seq<EngineValue>) -> Seq<EngineModel>
    decreases items,
{
    Seq::new(
        items.len(),
        |i: int|
            if 0 <= i < items.len() {
                items[i]@
            } else {
                EngineModel::Null
            },
    )
}

/// The models of a sequence of entries, entry by entry.
pub open spec fn entries_view(entries: Seq<(EngineValue, EngineValue)>) -> Seq<(EngineModel, EngineModel)>
    decreases entries,
{
    Seq::new(
        entries.len(),
        |i: int|
            if 0 <= i < entries.len() {
                (entries[i].0@, entries[i].1@)
            } else {
                (EngineModel::Null, EngineModel::Null)
            },
    )
}

impl View for EngineValue {
    type V = EngineModel;

    open spec fn view(&self) -> EngineModel
        decreases self,
    {
        match self {
            EngineValue::Null => EngineModel::Null,
            EngineValue::Ellipsis => EngineModel::Ellipsis,
            EngineValue::NotImplemented => EngineModel::NotImplemented,
            EngineValue::Bool(b) => EngineModel::Bool(*b),
            EngineValue::Int(n) => EngineModel::Int(*n),
            EngineValue::BigInt(n) => EngineModel::BigInt(n@),
            EngineValue::Float(bits) => EngineModel::Float(*bits),
            EngineValue::String(s) => EngineModel::Text(s@),
            EngineValue::Bytes(b) => EngineModel::Bytes(b@),
            EngineValue::List(items) => EngineModel::List(values_view(items@)),
            EngineValue::Tuple(items) => EngineModel::Tuple(values_view(items@)),
            EngineValue::NamedTuple(items) => EngineModel::NamedTuple(values_view(items@)),
            EngineValue::Dict(entries) => EngineModel::Dict(entries_view(entries@)),
            EngineValue::MutableSet(items) => EngineModel::MutableSet(values_view(items@)),
            EngineValue::FrozenSet(items) => EngineModel::FrozenSet(values_view(items@)),
            EngineValue::Path(p) => EngineModel::Path(p@),
            EngineValue::Instance(attrs) => EngineModel::Instance(entries_view(attrs@)),
            EngineValue::Exception { exc_type, arg } => EngineModel::Exception {
                exc_type: exc_type@,
                arg: optional_text(*arg),
            },
            EngineValue::Type(t) => EngineModel::Type(t@),
            EngineValue::BuiltinFunction(t) => EngineModel::BuiltinFunction(t@),
            EngineValue::Repr(t) => EngineModel::Repr(t@),
            EngineValue::Cycle(t) => EngineModel::Cycle(t@),
            EngineValue::Opaque(t) => EngineModel::Opaque(t@),
        }
    }
}

} // verus!
