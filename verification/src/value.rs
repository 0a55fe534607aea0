//! Value types of the S-expression engine: a closed tagged union over
//! interned symbols and strings, inline integers, floats held by their bit
//! pattern, and homogeneous scalar lists.

use crate::intern::StringId;
use vstd::prelude::*;

verus! {

/// Core value that can be stored and evaluated.
///
/// A `Symbol` denotes a bound name and a `String` a literal text; the two are
/// never interchangeable even when their identifiers share a numeric value.
/// `Float` holds the raw bit pattern of an IEEE 754 double, so that equality
/// and hashing are total and structural: two floats are equal exactly when
/// their bits are, which keeps every NaN pattern equal to itself and keeps
/// positive and negative zero distinct.
#[derive(Debug, Eq, Hash)]
pub enum Value {
    /// Interned symbol identifier.
    Symbol(StringId),
    /// Interned text literal.
    String(StringId),
    /// 64-bit signed integer.
    Integer(i64),
    /// IEEE 754 double, by its 64-bit pattern.
    Float(u64),
    /// Ordered list of interned strings.
    StringList(Vec<StringId>),
    /// Ordered list of integers.
    IntegerList(Vec<i64>),
}

/// Value type tag for cheap inspection and dispatch, one per `Value` variant.
#[derive(Debug, Clone, Copy, PartialEq, Eq, Hash, Structural)]
pub enum ValueType {
    Symbol,
    String,
    Integer,
    Float,
    StringList,
    IntegerList,
}

/// Structural equality of two values: same variant and equal payload, lists
/// element for element, floats by their bit patterns.
pub open spec fn value_eq(a: Value, b: Value) -> bool {
    match (a, b) {
        (Value::Symbol(x), Value::Symbol(y)) => x == y,
        (Value::String(x), Value::String(y)) => x == y,
        (Value::Integer(x), Value::Integer(y)) => x == y,
        (Value::Float(x), Value::Float(y)) => x == y,
        (Value::StringList(x), Value::StringList(y)) => x@ == y@,
        (Value::IntegerList(x), Value::IntegerList(y)) => x@ == y@,
        _ => false,
    }
}

/// The type tag of a value.
pub open spec fn spec_value_type(v: Value) -> ValueType {
    match v {
        Value::Symbol(_) => ValueType::Symbol,
        Value::String(_) => ValueType::String,
        Value::Integer(_) => ValueType::Integer,
        Value::Float(_) => ValueType::Float,
        Value::StringList(_) => ValueType::StringList,
        Value::IntegerList(_) => ValueType::IntegerList,
    }
}

fn string_id_list_eq(a: &Vec<StringId>, b: &Vec<StringId>) -> (r: bool)
    ensures
        r == (a@ == b@),
{
    if a.len() != b.len() {
        return false;
    }
    let mut i: usize = 0;
    while i < a.len()
        invariant
            i <= a@.len(),
            a@.len() == b@.len(),
            forall|j: int| 0 <= j < i ==> a@[j] == b@[j],
        decreases a@.len() - i,
    {
        if a[i] != b[i] {
            return false;
        }
        i += 1;
    }
    proof {
        assert(a@ =~= b@);
    }
    true
}

fn integer_list_eq(a: &Vec<i64>, b: &Vec<i64>) -> (r: bool)
    ensures
        r == (a@ == b@),
{
    if a.len() != b.len() {
        return false;
    }
    let mut i: usize = 0;
    while i < a.len()
        invariant
            i <= a@.len(),
            a@.len() == b@.len(),
            forall|j: int| 0 <= j < i ==> a@[j] == b@[j],
        decreases a@.len() - i,
    {
        if a[i] != b[i] {
            return false;
        }
        i += 1;
    }
    proof {
        assert(a@ =~= b@);
    }
    true
}

fn copy_string_id_list(v: &Vec<StringId>) -> (res: Vec<StringId>)
    ensures
        res@ == v@,
{
    let mut out: Vec<StringId> = Vec::new();
    let mut i: usize = 0;
    while i < v.len()
        invariant
            i <= v@.len(),
            out@.len() == i,
            forall|j: int| 0 <= j < i ==> out@[j] == v@[j],
        decreases v@.len() - i,
    {
        out.push(v[i]);
        i += 1;
    }
    proof {
        assert(out@ =~= v@);
    }
    out
}

fn copy_integer_list(v: &Vec<i64>) -> (res: Vec<i64>)
    ensures
        res@ == v@,
{
    let mut out: Vec<i64> = Vec::new();
    let mut i: usize = 0;
    while i < v.len()
        invariant
            i <= v@.len(),
            out@.len() == i,
            forall|j: int| 0 <= j < i ==> out@[j] == v@[j],
        decreases v@.len() - i,
    {
        out.push(v[i]);
        i += 1;
    }
    proof {
        assert(out@ =~= v@);
    }
    out
}

impl Clone for Value {
    /// An exact structural copy: the clone is equal to the original under
    /// the value model's structural equality.
    fn clone(&self) -> (res: Self)
        ensures
            value_eq(res, *self),
            spec_value_type(res) == spec_value_type(*self),
    {
        match self {
            Value::Symbol(id) => Value::Symbol(*id),
            Value::String(id) => Value::String(*id),
            Value::Integer(n) => Value::Integer(*n),
            Value::Float(bits) => Value::Float(*bits),
            Value::StringList(list) => Value::StringList(copy_string_id_list(list)),
            Value::IntegerList(list) => Value::IntegerList(copy_integer_list(list)),
        }
    }
}

impl PartialEq for Value {
    /// Total, structural equality; floats compare by bit pattern, not by
    /// IEEE 754 numeric equality.
    fn eq(&self, other: &Self) -> (r: bool) {
        match (self, other) {
            (Value::Symbol(a), Value::Symbol(b)) => a == b,
            (Value::String(a), Value::String(b)) => a == b,
            (Value::Integer(a), Value::Integer(b)) => a == b,
            (Value::Float(a), Value::Float(b)) => a == b,
            (Value::StringList(a), Value::StringList(b)) => string_id_list_eq(a, b),
            (Value::IntegerList(a), Value::IntegerList(b)) => integer_list_eq(a, b),
            _ => false,
        }
    }
}

impl vstd::std_specs::cmp::PartialEqSpecImpl for Value {
    open spec fn obeys_eq_spec() -> bool {
        true
    }

    open spec fn eq_spec(&self, other: &Value) -> bool {
        value_eq(*self, *other)
    }
}

/// Float values are equal exactly when their bit patterns are: equality is
/// reflexive on every pattern, NaN patterns included, and two distinct
/// patterns of the same number (positive and negative zero) stay distinct.
pub proof fn lemma_float_bit_equality(a: u64, b: u64)
    ensures
        value_eq(Value::Float(a), Value::Float(b)) <==> a == b,
        value_eq(Value::Float(a), Value::Float(a)),
{
}

/// The type tag corresponds one to one to the variant: a value has a given
/// tag exactly when it is of the matching variant, so of the six variant
/// predicates exactly one holds of any value.
pub proof fn lemma_value_type_correspondence(v: Value)
    ensures
        spec_value_type(v) == ValueType::Symbol <==> (v matches Value::Symbol(_)),
        spec_value_type(v) == ValueType::String <==> (v matches Value::String(_)),
        spec_value_type(v) == ValueType::Integer <==> (v matches Value::Integer(_)),
        spec_value_type(v) == ValueType::Float <==> (v matches Value::Float(_)),
        spec_value_type(v) == ValueType::StringList <==> (v matches Value::StringList(_)),
        spec_value_type(v) == ValueType::IntegerList <==> (v matches Value::IntegerList(_)),
{
}

impl Value {
    /// Get the type of this value.
    pub fn value_type(&self) -> (t: ValueType)
        ensures
            t == spec_value_type(*self),
    {
        match self {
            Value::Symbol(_) => ValueType::Symbol,
            Value::String(_) => ValueType::String,
            Value::Integer(_) => ValueType::Integer,
            Value::Float(_) => ValueType::Float,
            Value::StringList(_) => ValueType::StringList,
            Value::IntegerList(_) => ValueType::IntegerList,
        }
    }

    /// Check if the value is a symbol.
    pub fn is_symbol(&self) -> (r: bool)
        ensures
            r == (spec_value_type(*self) == ValueType::Symbol),
    {
        matches!(self, Value::Symbol(_))
    }

    /// Check if the value is a string.
    pub fn is_string(&self) -> (r: bool)
        ensures
            r == (spec_value_type(*self) == ValueType::String),
    {
        matches!(self, Value::String(_))
    }

    /// Check if the value is an integer.
    pub fn is_integer(&self) -> (r: bool)
        ensures
            r == (spec_value_type(*self) == ValueType::Integer),
    {
        matches!(self, Value::Integer(_))
    }

    /// Check if the value is a float.
    pub fn is_float(&self) -> (r: bool)
        ensures
            r == (spec_value_type(*self) == ValueType::Float),
    {
        matches!(self, Value::Float(_))
    }

    /// Check if the value is a string list.
    pub fn is_string_list(&self) -> (r: bool)
        ensures
            r == (spec_value_type(*self) == ValueType::StringList),
    {
        matches!(self, Value::StringList(_))
    }

    /// Check if the value is an integer list.
    pub fn is_integer_list(&self) -> (r: bool)
        ensures
            r == (spec_value_type(*self) == ValueType::IntegerList),
    {
        matches!(self, Value::IntegerList(_))
    }

    /// Try to get the symbol identifier.
    pub fn as_symbol(&self) -> (r: Option<StringId>)
        ensures
            r == (match *self {
                Value::Symbol(id) => Some(id),
                _ => None,
            }),
    {
        match self {
            Value::Symbol(id) => Some(*id),
            _ => None,
        }
    }

    /// Try to get the string identifier.
    pub fn as_string(&self) -> (r: Option<StringId>)
        ensures
            r == (match *self {
                Value::String(id) => Some(id),
                _ => None,
            }),
    {
        match self {
            Value::String(id) => Some(*id),
            _ => None,
        }
    }

    /// Try to get the integer value.
    pub fn as_integer(&self) -> (r: Option<i64>)
        ensures
            r == (match *self {
                Value::Integer(n) => Some(n),
                _ => None,
            }),
    {
        match self {
            Value::Integer(n) => Some(*n),
            _ => None,
        }
    }

    /// Try to get the float's bit pattern.
    pub fn as_float(&self) -> (r: Option<u64>)
        ensures
            r == (match *self {
                Value::Float(bits) => Some(bits),
                _ => None,
            }),
    {
        match self {
            Value::Float(bits) => Some(*bits),
            _ => None,
        }
    }

    /// Try to get the string list.
    pub fn as_string_list(&self) -> (r: Option<&Vec<StringId>>)
        ensures
            match r {
                Some(list) => *self matches Value::StringList(l) && l@ == list@,
                None => !(*self matches Value::StringList(_)),
            },
    {
        match self {
            Value::StringList(list) => Some(list),
            _ => None,
        }
    }

    /// Try to get the integer list.
    pub fn as_integer_list(&self) -> (r: Option<&Vec<i64>>)
        ensures
            match r {
                Some(list) => *self matches Value::IntegerList(l) && l@ == list@,
                None => !(*self matches Value::IntegerList(_)),
            },
    {
        match self {
            Value::IntegerList(list) => Some(list),
            _ => None,
        }
    }
}

} // verus!
