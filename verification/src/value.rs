//! The scalar values that cross the engine boundary.
use crate::decimal::{decimal, format_i64};
use vstd::prelude::*;
use vstd::std_specs::convert::FromSpecImpl;
use vstd::string::*;

verus! {

/// A text column: a string, or no value.
#[derive(Clone, Debug, PartialEq)]
pub struct Text(pub Option<String>);

/// An integer column: a 64-bit signed integer, or no value.
#[derive(Clone, Copy, Debug, PartialEq)]
pub struct Int(pub Option<i64>);

/// A real column: the 64 bits of an IEEE 754 double, or no value.
#[derive(Clone, Copy, Debug, PartialEq)]
pub struct Real(pub Option<u64>);

/// A blob column: a byte sequence, or no value.
#[derive(Clone, Debug, PartialEq)]
pub struct Blob(pub Option<Vec<u8>>);

/// One column or parameter value.
///
/// `Null` and a typed variant that holds nothing both stand for "no value". They
/// bind alike, and differ only in the type they announce.
#[derive(Clone, Debug, PartialEq)]
pub enum Value {
    Text(Text),
    Int(Int),
    Real(Real),
    Blob(Blob),
    Null,
}

/// What a [`Value`] holds, as mathematics.
pub enum ValueView {
    Text(Option<Seq<char>>),
    Int(Option<i64>),
    Real(Option<u64>),
    Blob(Option<Seq<u8>>),
    Null,
}

impl ValueView {
    /// Whether this stands for "no value".
    pub open spec fn is_absent(self) -> bool {
        match self {
            ValueView::Text(t) => t is None,
            ValueView::Int(n) => n is None,
            ValueView::Real(r) => r is None,
            ValueView::Blob(b) => b is None,
            ValueView::Null => true,
        }
    }
}

impl ValueView {
    /// What the value is when read as text: `Null` reads as the text that holds
    /// nothing, a value of another type does not read as text.
    pub open spec fn as_text(self) -> Option<Option<Seq<char>>> {
        match self {
            ValueView::Text(t) => Some(t),
            ValueView::Null => Some(None),
            _ => None,
        }
    }

    /// What the value is when read as an integer.
    pub open spec fn as_int(self) -> Option<Option<i64>> {
        match self {
            ValueView::Int(n) => Some(n),
            ValueView::Null => Some(None),
            _ => None,
        }
    }

    /// What the value is when read as a real.
    pub open spec fn as_real(self) -> Option<Option<u64>> {
        match self {
            ValueView::Real(x) => Some(x),
            ValueView::Null => Some(None),
            _ => None,
        }
    }

    /// What the value is when read as a blob.
    pub open spec fn as_blob(self) -> Option<Option<Seq<u8>>> {
        match self {
            ValueView::Blob(b) => Some(b),
            ValueView::Null => Some(None),
            _ => None,
        }
    }
}

impl View for Text {
    type V = Option<Seq<char>>;

    open spec fn view(&self) -> Option<Seq<char>> {
        match self.0 {
            Some(s) => Some(s@),
            None => None,
        }
    }
}

impl View for Int {
    type V = Option<i64>;

    open spec fn view(&self) -> Option<i64> {
        self.0
    }
}

impl View for Real {
    type V = Option<u64>;

    open spec fn view(&self) -> Option<u64> {
        self.0
    }
}

impl View for Blob {
    type V = Option<Seq<u8>>;

    open spec fn view(&self) -> Option<Seq<u8>> {
        match self.0 {
            Some(b) => Some(b@),
            None => None,
        }
    }
}

impl View for Value {
    type V = ValueView;

    open spec fn view(&self) -> ValueView {
        match self {
            Value::Text(t) => ValueView::Text(t@),
            Value::Int(n) => ValueView::Int(n@),
            Value::Real(r) => ValueView::Real(r@),
            Value::Blob(b) => ValueView::Blob(b@),
            Value::Null => ValueView::Null,
        }
    }
}

/// A text value that holds `s`.
pub fn text(s: &str) -> (r: Text)
    ensures
        r@ == Some(s@),
{
    Text(Some(String::from_str(s)))
}

/// An integer value that holds `value`.
pub fn integer(value: i64) -> (r: Int)
    ensures
        r@ == Some(value),
{
    Int(Some(value))
}

/// A blob value that holds `value`.
pub fn blob(value: Vec<u8>) -> (r: Blob)
    ensures
        r.0 == Some(value),
{
    Blob(Some(value))
}

impl Real {
    /// A real value that holds the double with the given bits.
    pub fn from_bits(bits: u64) -> (r: Real)
        ensures
            r@ == Some(bits),
    {
        Real(Some(bits))
    }
}

impl Text {
    /// Reads a decoded column as text. `Null` gives the text that holds nothing;
    /// a value of another type gives `None`.
    pub fn from_value(value: Value) -> (r: Option<Text>)
        ensures
            match r {
                Some(read) => value@.as_text() == Some(read@),
                None => value@.as_text() is None,
            },
            r == match value {
                Value::Text(t) => Some(t),
                Value::Null => Some(Text(None)),
                _ => None,
            },
    {
        match value {
            Value::Text(t) => Some(t),
            Value::Null => Some(Text(None)),
            _ => None,
        }
    }
}

impl Int {
    /// Reads a decoded column as an integer. `Null` gives the integer that holds
    /// nothing; a value of another type gives `None`.
    pub fn from_value(value: Value) -> (r: Option<Int>)
        ensures
            match r {
                Some(read) => value@.as_int() == Some(read@),
                None => value@.as_int() is None,
            },
            r == match value {
                Value::Int(n) => Some(n),
                Value::Null => Some(Int(None)),
                _ => None,
            },
    {
        match value {
            Value::Int(n) => Some(n),
            Value::Null => Some(Int(None)),
            _ => None,
        }
    }
}

impl Real {
    /// Reads a decoded column as a real. `Null` gives the real that holds nothing;
    /// a value of another type gives `None`.
    pub fn from_value(value: Value) -> (r: Option<Real>)
        ensures
            match r {
                Some(read) => value@.as_real() == Some(read@),
                None => value@.as_real() is None,
            },
            r == match value {
                Value::Real(x) => Some(x),
                Value::Null => Some(Real(None)),
                _ => None,
            },
    {
        match value {
            Value::Real(x) => Some(x),
            Value::Null => Some(Real(None)),
            _ => None,
        }
    }
}

impl Blob {
    /// Reads a decoded column as a blob. `Null` gives the blob that holds nothing;
    /// a value of another type gives `None`.
    pub fn from_value(value: Value) -> (r: Option<Blob>)
        ensures
            match r {
                Some(read) => value@.as_blob() == Some(read@),
                None => value@.as_blob() is None,
            },
            r == match value {
                Value::Blob(b) => Some(b),
                Value::Null => Some(Blob(None)),
                _ => None,
            },
    {
        match value {
            Value::Blob(b) => Some(b),
            Value::Null => Some(Blob(None)),
            _ => None,
        }
    }
}

impl Default for Text {
    /// The value that holds nothing.
    fn default() -> (r: Text)
        ensures
            r@ is None,
    {
        Text(None)
    }
}

impl Default for Int {
    /// The value that holds nothing.
    fn default() -> (r: Int)
        ensures
            r@ is None,
    {
        Int(None)
    }
}

impl Default for Real {
    /// The value that holds nothing.
    fn default() -> (r: Real)
        ensures
            r@ is None,
    {
        Real(None)
    }
}

impl Default for Blob {
    /// The value that holds nothing.
    fn default() -> (r: Blob)
        ensures
            r@ is None,
    {
        Blob(None)
    }
}

impl From<Option<String>> for Text {
    /// The text that holds what `value` holds.
    fn from(value: Option<String>) -> (r: Text) {
        Text(value)
    }
}

impl FromSpecImpl<Option<String>> for Text {
    open spec fn obeys_from_spec() -> bool {
        true
    }

    open spec fn from_spec(value: Option<String>) -> Text {
        Text(value)
    }
}

impl From<String> for Text {
    /// The text that holds `value`.
    fn from(value: String) -> (r: Text) {
        Text(Some(value))
    }
}

impl FromSpecImpl<String> for Text {
    open spec fn obeys_from_spec() -> bool {
        true
    }

    open spec fn from_spec(value: String) -> Text {
        Text(Some(value))
    }
}

impl From<Option<i64>> for Int {
    /// The integer that holds what `value` holds.
    fn from(value: Option<i64>) -> (r: Int) {
        Int(value)
    }
}

impl FromSpecImpl<Option<i64>> for Int {
    open spec fn obeys_from_spec() -> bool {
        true
    }

    open spec fn from_spec(value: Option<i64>) -> Int {
        Int(value)
    }
}

impl From<i64> for Int {
    /// The integer that holds `value`.
    fn from(value: i64) -> (r: Int) {
        Int(Some(value))
    }
}

impl FromSpecImpl<i64> for Int {
    open spec fn obeys_from_spec() -> bool {
        true
    }

    open spec fn from_spec(value: i64) -> Int {
        Int(Some(value))
    }
}

impl From<Option<Vec<u8>>> for Blob {
    /// The blob that holds what `value` holds.
    fn from(value: Option<Vec<u8>>) -> (r: Blob) {
        Blob(value)
    }
}

impl FromSpecImpl<Option<Vec<u8>>> for Blob {
    open spec fn obeys_from_spec() -> bool {
        true
    }

    open spec fn from_spec(value: Option<Vec<u8>>) -> Blob {
        Blob(value)
    }
}

impl From<Vec<u8>> for Blob {
    /// The blob that holds `value`.
    fn from(value: Vec<u8>) -> (r: Blob) {
        Blob(Some(value))
    }
}

impl FromSpecImpl<Vec<u8>> for Blob {
    open spec fn obeys_from_spec() -> bool {
        true
    }

    open spec fn from_spec(value: Vec<u8>) -> Blob {
        Blob(Some(value))
    }
}

impl From<Text> for Value {
    /// The value of the text type that holds what `value` holds.
    fn from(value: Text) -> (r: Value) {
        Value::Text(value)
    }
}

impl FromSpecImpl<Text> for Value {
    open spec fn obeys_from_spec() -> bool {
        true
    }

    open spec fn from_spec(value: Text) -> Value {
        Value::Text(value)
    }
}

impl From<Int> for Value {
    /// The value of the integer type that holds what `value` holds.
    fn from(value: Int) -> (r: Value) {
        Value::Int(value)
    }
}

impl FromSpecImpl<Int> for Value {
    open spec fn obeys_from_spec() -> bool {
        true
    }

    open spec fn from_spec(value: Int) -> Value {
        Value::Int(value)
    }
}

impl From<Real> for Value {
    /// The value of the real type that holds what `value` holds.
    fn from(value: Real) -> (r: Value) {
        Value::Real(value)
    }
}

impl FromSpecImpl<Real> for Value {
    open spec fn obeys_from_spec() -> bool {
        true
    }

    open spec fn from_spec(value: Real) -> Value {
        Value::Real(value)
    }
}

impl From<Blob> for Value {
    /// The value of the blob type that holds what `value` holds.
    fn from(value: Blob) -> (r: Value) {
        Value::Blob(value)
    }
}

impl FromSpecImpl<Blob> for Value {
    open spec fn obeys_from_spec() -> bool {
        true
    }

    open spec fn from_spec(value: Blob) -> Value {
        Value::Blob(value)
    }
}

impl Int {
    /// The integer as it is shown: in decimal, and nothing where it holds nothing.
    pub fn to_string(&self) -> (r: String)
        ensures
            r@ == match self@ {
                Some(n) => decimal(n as int),
                None => Seq::empty(),
            },
    {
        match self.0 {
            Some(n) => format_i64(n),
            None => String::new(),
        }
    }
}

impl Text {
    /// The text as it is shown: what it holds, and nothing where it holds nothing.
    pub fn to_string(&self) -> (r: String)
        ensures
            r@ == match self@ {
                Some(s) => s,
                None => Seq::empty(),
            },
    {
        match &self.0 {
            Some(s) => s.clone(),
            None => String::new(),
        }
    }
}

} // verus!
