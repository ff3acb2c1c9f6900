//! JSON documents as plain values. Reading and writing JSON text is left to
//! the `json` crate; what the flow reads out of a document is decided here.

use vstd::arithmetic::div_mod::{lemma_breakdown, lemma_div_denominator};
use vstd::prelude::*;
use crate::text::{fractions_fit, fractions_within, str_eq};

verus! {

/// A JSON number in decimal floating point: `mantissa * 10^exponent`,
/// negated unless `positive`.
#[derive(Debug, Clone, Copy, PartialEq, Eq)]
pub struct JsonNumber {
    pub positive: bool,
    pub mantissa: u64,
    pub exponent: i16,
}

/// Ten to the power `e`.
pub open spec fn pow10(e: nat) -> nat
    decreases e,
{
    if e == 0 {
        1
    } else {
        10 * pow10((e - 1) as nat)
    }
}

/// The number `m * 10^e`, where it is whole.
pub open spec fn scaled(m: int, e: int) -> Option<int> {
    if e >= 0 {
        Some(m * pow10(e as nat))
    } else if m % (pow10((-e) as nat) as int) == 0 {
        Some(m / (pow10((-e) as nat) as int))
    } else {
        None
    }
}

/// A power of ten is at least one.
pub proof fn lemma_pow10_positive(e: nat)
    ensures
        pow10(e) >= 1,
    decreases e,
{
    if e > 0 {
        lemma_pow10_positive((e - 1) as nat);
    }
}

/// Zero is whole at every exponent.
pub proof fn lemma_scaled_zero(e: int)
    ensures
        scaled(0, e) == Some(0int),
{
    if e >= 0 {
        assert(0 * pow10(e as nat) == 0) by (nonlinear_arith);
    } else {
        lemma_pow10_positive((-e) as nat);
        let p = pow10((-e) as nat) as int;
        assert(0int % p == 0 && 0int / p == 0) by (nonlinear_arith)
            requires
                p >= 1,
        ;
    }
}

/// Moving the decimal point by one place: with a positive exponent the
/// mantissa takes a zero from the exponent; with a negative one it gives a
/// zero to it, and a mantissa that does not end in zero has a fraction.
pub proof fn lemma_scaled_step(m: int, e: int)
    requires
        m >= 0,
    ensures
        e > 0 ==> scaled(m, e) == scaled(m * 10, e - 1),
        e < 0 && m % 10 == 0 ==> scaled(m, e) == scaled(m / 10, e + 1),
        e < 0 && m % 10 != 0 ==> scaled(m, e) is None,
{
    if e > 0 {
        let p = pow10((e - 1) as nat);
        assert(pow10(e as nat) == 10 * p);
        assert((m * 10) * p == m * (10 * p)) by (nonlinear_arith);
    } else if e < 0 {
        let p = pow10((-e - 1) as nat) as int;
        let q = pow10((-e) as nat) as int;
        lemma_pow10_positive((-e - 1) as nat);
        assert(q == 10 * p);
        lemma_breakdown(m, 10, p);
        lemma_div_denominator(m, 10, p);
        assert(m % q == 10 * ((m / 10) % p) + m % 10);
        assert(m / q == (m / 10) / p);
        if m % 10 == 0 && e + 1 == 0 {
            assert(p == 1);
            assert((m / 10) * 1 == m / 10);
        }
    }
}

impl JsonNumber {
    /// The value of the number, where it is a whole number.
    pub open spec fn whole(self) -> Option<int> {
        match scaled(self.mantissa as int, self.exponent as int) {
            Some(magnitude) => Some(if self.positive { magnitude } else { -magnitude }),
            None => None,
        }
    }

    /// The value of the number, where it is a whole number that an `i64`
    /// can hold.
    pub open spec fn integer(self) -> Option<i64> {
        match self.whole() {
            Some(value) => if i64::MIN <= value <= i64::MAX {
                Some(value as i64)
            } else {
                None
            },
            None => None,
        }
    }

    /// Reads the number as an `i64`.
    pub fn to_i64(&self) -> (value: Option<i64>)
        ensures
            value == self.integer(),
    {
        if self.mantissa == 0 {
            proof {
                lemma_scaled_zero(self.exponent as int);
            }
            return Some(0);
        }
        let mut m: u64 = self.mantissa;
        let mut e: i16 = self.exponent;
        while e != 0
            invariant
                m > 0,
                scaled(m as int, e as int) == scaled(self.mantissa as int, self.exponent as int),
            decreases (if e < 0 { -(e as int) } else { e as int }),
        {
            proof {
                lemma_scaled_step(m as int, e as int);
            }
            if e > 0 {
                if m > u64::MAX / 10 {
                    proof {
                        lemma_pow10_positive((e - 1) as nat);
                        let p = pow10((e - 1) as nat);
                        assert(pow10(e as nat) == 10 * p);
                        assert(m * (10 * p) >= m * 10) by (nonlinear_arith)
                            requires
                                p >= 1,
                                m > 0,
                        ;
                    }
                    return None;
                }
                m = m * 10;
                e = e - 1;
            } else {
                if m % 10 != 0 {
                    return None;
                }
                m = m / 10;
                e = e + 1;
            }
        }
        assert(pow10(0) == 1);
        assert(scaled(m as int, 0) == Some(m as int)) by {
            assert(m * 1 == m);
        }
        if m <= i64::MAX as u64 {
            if self.positive {
                Some(m as i64)
            } else {
                Some(-(m as i64))
            }
        } else if !self.positive && m == 0x8000_0000_0000_0000 {
            Some(i64::MIN)
        } else {
            None
        }
    }
}

/// A JSON document. The members of an object are kept in the order in
/// which they were written.
#[derive(Debug, PartialEq, Eq)]
pub enum Json {
    Null,
    Bool(bool),
    Number(JsonNumber),
    Text(String),
    Array(Vec<Json>),
    Object(Vec<(String, Json)>),
}

/// `json::JsonValue`, the document type of the `json` crate, as a value
/// that is only handed on.
#[verifier::external_type_specification]
#[verifier::external_body]
pub struct ExJsonValue(json::JsonValue);

/// The document that `json::parse` reads from a text, if it reads one.
pub uninterp spec fn parsed(text: Seq<char>) -> Option<Json>;

/// The text that `json::stringify` writes for a document.
pub uninterp spec fn rendered(value: Json) -> Seq<char>;

/// Copies a document of the `json` crate into a [`Json`], variant by
/// variant: both of its string variants become `Text`, a number is taken
/// apart by `Number::as_parts`, and an object hands out its members in the
/// order of `Object::iter`.
#[verifier::external_body]
fn from_value(value: &json::JsonValue) -> Json {
    match value {
        json::JsonValue::Null => Json::Null,
        json::JsonValue::Boolean(b) => Json::Bool(*b),
        json::JsonValue::Number(n) => {
            let (positive, mantissa, exponent) = n.as_parts();
            Json::Number(JsonNumber { positive, mantissa, exponent })
        },
        json::JsonValue::Short(s) => Json::Text(s.as_str().to_string()),
        json::JsonValue::String(s) => Json::Text(s.clone()),
        json::JsonValue::Array(items) => Json::Array(items.iter().map(from_value).collect()),
        json::JsonValue::Object(o) => Json::Object(
            o.iter().map(|(k, v)| (k.to_string(), from_value(v))).collect(),
        ),
    }
}

/// Builds the document of the `json` crate that a [`Json`] stands for,
/// variant by variant; a number goes through `Number::from_parts` and the
/// members of an object through `Object::insert`, in their order.
#[verifier::external_body]
fn to_value(value: &Json) -> json::JsonValue {
    match value {
        Json::Null => json::JsonValue::Null,
        Json::Bool(b) => json::JsonValue::Boolean(*b),
        Json::Number(n) => json::JsonValue::Number(
            json::number::Number::from_parts(n.positive, n.mantissa, n.exponent),
        ),
        Json::Text(s) => json::JsonValue::String(s.clone()),
        Json::Array(items) => json::JsonValue::Array(items.iter().map(to_value).collect()),
        Json::Object(members) => {
            let mut object = json::object::Object::new();
            members.iter().for_each(|(k, v)| object.insert(k, to_value(v)));
            json::JsonValue::Object(object)
        },
    }
}

/// The most digits that may follow a `.` in a text that is read as JSON.
/// The parser counts the digits of a fraction in a 16-bit exponent.
pub const FRACTION_LIMIT: usize = 32767;

/// Calls `json::parse` and copies what it read. Claims only that the same
/// text always reads as the same document, or always fails. The parser
/// lowers a 16-bit exponent once for every digit that follows the decimal
/// point of a number, without a check, so a text in which more than
/// [`FRACTION_LIMIT`] digits follow a `.` is left out.
#[verifier::external_body]
pub(crate) fn parse(text: &str) -> (read: Option<Json>)
    requires
        fractions_within(text@, FRACTION_LIMIT as nat),
    ensures
        read == parsed(text@),
{
    match json::parse(text) {
        Ok(value) => Some(from_value(&value)),
        Err(_) => None,
    }
}

/// The document that a text holds: what the parser reads from it, where no
/// `.` in the text is followed by more than [`FRACTION_LIMIT`] digits.
pub open spec fn document_of(text: Seq<char>) -> Option<Json> {
    if fractions_within(text, FRACTION_LIMIT as nat) {
        parsed(text)
    } else {
        None
    }
}

/// Reads a text as a JSON document.
pub fn read(text: &str) -> (document: Option<Json>)
    ensures
        document == document_of(text@),
{
    if fractions_fit(text, FRACTION_LIMIT) {
        parse(text)
    } else {
        None
    }
}

/// Calls `json::stringify`. Claims only that the same document is always
/// written as the same text.
#[verifier::external_body]
pub(crate) fn render(value: &Json) -> (text: String)
    ensures
        text@ == rendered(*value),
{
    json::stringify(to_value(value))
}

/// The value of the last member named `key`.
pub open spec fn member(members: Seq<(String, Json)>, key: Seq<char>) -> Option<Json>
    decreases members.len(),
{
    if members.len() == 0 {
        None
    } else if members.last().0@ == key {
        Some(members.last().1)
    } else {
        member(members.drop_last(), key)
    }
}

impl Json {
    /// The member `key` of an object; nothing for any other kind of value.
    pub open spec fn field(self, key: Seq<char>) -> Option<Json> {
        match self {
            Json::Object(members) => member(members@, key),
            _ => None,
        }
    }

    /// The member `key` where it is a string.
    pub open spec fn text_field(self, key: Seq<char>) -> Option<Seq<char>> {
        match self.field(key) {
            Some(Json::Text(s)) => Some(s@),
            _ => None,
        }
    }

    /// The member `key` where it is a number.
    pub open spec fn number_field(self, key: Seq<char>) -> Option<JsonNumber> {
        match self.field(key) {
            Some(Json::Number(n)) => Some(n),
            _ => None,
        }
    }

    /// Looks a member up by name.
    pub fn get(&self, key: &str) -> (found: Option<&Json>)
        ensures
            match found {
                Some(value) => self.field(key@) == Some(*value),
                None => self.field(key@) is None,
            },
    {
        match self {
            Json::Object(members) => {
                let mut found: Option<&Json> = None;
                let mut i: usize = 0;
                while i < members.len()
                    invariant
                        i <= members.len(),
                        match found {
                            Some(value) => member(members@.take(i as int), key@) == Some(*value),
                            None => member(members@.take(i as int), key@) is None,
                        },
                    decreases members.len() - i,
                {
                    assert(members@.take(i + 1).drop_last() =~= members@.take(i as int));
                    if str_eq(members[i].0.as_str(), key) {
                        found = Some(&members[i].1);
                    }
                    i = i + 1;
                }
                assert(members@.take(i as int) =~= members@);
                found
            },
            _ => None,
        }
    }
}

} // verus!
