use vstd::prelude::*;

verus! {

/// The dynamically typed value stored for a toggle: a tagged union over the
/// shapes a decision can take on the wire. Numbers are carried as the bit
/// pattern of their IEEE-754 double representation, so that the verified
/// logic never computes on floating point; structured documents (arrays and
/// objects) are carried as their serialized text.
#[derive(Debug, PartialEq, Eq)]
pub enum FPValue {
    Null,
    Bool(bool),
    /// The IEEE-754 bit pattern of a double-precision number.
    Number(u64),
    Str(String),
    /// A structured document (array or object), serialized.
    Document(String),
}

/// The mathematical model of an [`FPValue`]: the same tags over `Seq<char>`
/// instead of `String`.
pub enum FPValueModel {
    Null,
    Bool(bool),
    Number(u64),
    Str(Seq<char>),
    Document(Seq<char>),
}

impl View for FPValue {
    type V = FPValueModel;

    open spec fn view(&self) -> FPValueModel {
        match self {
            FPValue::Null => FPValueModel::Null,
            FPValue::Bool(b) => FPValueModel::Bool(*b),
            FPValue::Number(bits) => FPValueModel::Number(*bits),
            FPValue::Str(s) => FPValueModel::Str(s@),
            FPValue::Document(s) => FPValueModel::Document(s@),
        }
    }
}

impl Clone for FPValue {
    fn clone(&self) -> (r: Self)
        ensures
            r@ == self@,
    {
        match self {
            FPValue::Null => FPValue::Null,
            FPValue::Bool(b) => FPValue::Bool(*b),
            FPValue::Number(bits) => FPValue::Number(*bits),
            FPValue::Str(s) => FPValue::Str(s.clone()),
            FPValue::Document(s) => FPValue::Document(s.clone()),
        }
    }
}

impl FPValue {
    /// The boolean this value coerces to: `Some` exactly on the `Bool` tag.
    pub fn as_bool(&self) -> (r: Option<bool>)
        ensures
            r == self@.as_bool_spec(),
    {
        match self {
            FPValue::Bool(b) => Some(*b),
            _ => None,
        }
    }

    /// The string this value coerces to: `Some` exactly on the `Str` tag.
    pub fn as_string(&self) -> (r: Option<String>)
        ensures
            (match r {
                Some(s) => self@.as_str_spec() == Some(s@),
                None => self@.as_str_spec() is None,
            }),
    {
        match self {
            FPValue::Str(s) => Some(s.clone()),
            _ => None,
        }
    }

    /// The numeric bit pattern this value coerces to: `Some` exactly on the
    /// `Number` tag.
    pub fn as_number_bits(&self) -> (r: Option<u64>)
        ensures
            r == self@.as_number_spec(),
    {
        match self {
            FPValue::Number(bits) => Some(*bits),
            _ => None,
        }
    }
}

impl FPValueModel {
    pub open spec fn as_bool_spec(self) -> Option<bool> {
        match self {
            FPValueModel::Bool(b) => Some(b),
            _ => None,
        }
    }

    pub open spec fn as_str_spec(self) -> Option<Seq<char>> {
        match self {
            FPValueModel::Str(s) => Some(s),
            _ => None,
        }
    }

    pub open spec fn as_number_spec(self) -> Option<u64> {
        match self {
            FPValueModel::Number(bits) => Some(bits),
            _ => None,
        }
    }
}

} // verus!
