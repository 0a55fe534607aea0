//! Expression trees for parsed S-expressions, and the fixed catalog of
//! built-in operator names with its bidirectional string mapping.

use crate::intern::StringId;
use crate::value::value_eq;
use crate::value::Value;
use vstd::prelude::*;

verus! {

/// A parsed S-expression: a tree of literal constants, variable references,
/// function applications and list literals. Each node owns its children;
/// construction does not validate arity or operator names, which is the
/// evaluator's concern.
#[derive(Debug, Eq, Hash)]
pub enum Expr {
    /// Literal value.
    Literal(Value),
    /// Variable reference.
    Variable(StringId),
    /// Function call.
    Call {
        /// Function name (interned).
        function: StringId,
        /// Function arguments.
        args: Vec<Expr>,
    },
    /// List literal of unevaluated sub-expressions.
    List(Vec<Expr>),
}

/// Structural equality of two expression trees: equal exactly when they
/// have the same shape and equal leaf values, recursively.
pub open spec fn expr_eq(a: Expr, b: Expr) -> bool
    decreases a,
{
    match (a, b) {
        (Expr::Literal(x), Expr::Literal(y)) => value_eq(x, y),
        (Expr::Variable(x), Expr::Variable(y)) => x == y,
        (Expr::Call { function: f1, args: a1 }, Expr::Call { function: f2, args: a2 }) => {
            &&& f1 == f2
            &&& a1@.len() == a2@.len()
            &&& forall|i: int| #![trigger a1@[i]] 0 <= i < a1@.len() ==> expr_eq(a1@[i], a2@[i])
        },
        (Expr::List(l1), Expr::List(l2)) => {
            &&& l1@.len() == l2@.len()
            &&& forall|i: int| #![trigger l1@[i]] 0 <= i < l1@.len() ==> expr_eq(l1@[i], l2@[i])
        },
        _ => false,
    }
}

/// Whether an expression is a literal constant.
pub open spec fn spec_is_literal(e: Expr) -> bool {
    e matches Expr::Literal(_)
}

/// Whether an expression is a variable reference.
pub open spec fn spec_is_variable(e: Expr) -> bool {
    e matches Expr::Variable(_)
}

/// Whether an expression is a function call.
pub open spec fn spec_is_call(e: Expr) -> bool {
    e matches Expr::Call { .. }
}

/// Whether an expression is a list literal.
pub open spec fn spec_is_list(e: Expr) -> bool {
    e matches Expr::List(_)
}

/// Every expression is of exactly one of the four kinds: one of the four
/// kind predicates holds, and each excludes the three others.
pub proof fn lemma_expr_kind_exclusive(e: Expr)
    ensures
        spec_is_literal(e) || spec_is_variable(e) || spec_is_call(e) || spec_is_list(e),
        spec_is_literal(e) ==> !spec_is_variable(e) && !spec_is_call(e) && !spec_is_list(e),
        spec_is_variable(e) ==> !spec_is_literal(e) && !spec_is_call(e) && !spec_is_list(e),
        spec_is_call(e) ==> !spec_is_literal(e) && !spec_is_variable(e) && !spec_is_list(e),
        spec_is_list(e) ==> !spec_is_literal(e) && !spec_is_variable(e) && !spec_is_call(e),
{
}

fn clone_expr_list(v: &Vec<Expr>) -> (res: Vec<Expr>)
    ensures
        res@.len() == v@.len(),
        forall|i: int| #![trigger res@[i]] 0 <= i < v@.len() ==> expr_eq(res@[i], v@[i]),
    decreases v@,
{
    let mut out: Vec<Expr> = Vec::new();
    let mut i: usize = 0;
    while i < v.len()
        invariant
            i <= v@.len(),
            out@.len() == i,
            forall|j: int| #![trigger out@[j]] 0 <= j < i ==> expr_eq(out@[j], v@[j]),
        decreases v@.len() - i,
    {
        proof {
            assert(decreases_to!(v@ => v@[i as int]));
        }
        out.push(v[i].clone());
        i += 1;
    }
    out
}

impl Clone for Expr {
    /// An exact structural copy of the whole tree: the clone is equal to the
    /// original under the expression model's structural equality.
    fn clone(&self) -> (res: Self)
        ensures
            expr_eq(res, *self),
        decreases *self,
    {
        match self {
            Expr::Literal(v) => Expr::Literal(v.clone()),
            Expr::Variable(id) => Expr::Variable(*id),
            Expr::Call { function, args } => {
                proof {
                    assert(decreases_to!(*self => self->Call_args));
                    assert(decreases_to!(self->Call_args => args@));
                    assert(decreases_to!(*self => args@));
                }
                let res = Expr::Call { function: *function, args: clone_expr_list(args) };
                proof {
                    assert(expr_eq(res, *self));
                }
                res
            },
            Expr::List(items) => {
                proof {
                    assert(decreases_to!(*self => self->List_0));
                    assert(decreases_to!(self->List_0 => items@));
                    assert(decreases_to!(*self => items@));
                }
                let res = Expr::List(clone_expr_list(items));
                proof {
                    assert(expr_eq(res, *self));
                }
                res
            },
        }
    }
}

fn expr_list_eq(a: &Vec<Expr>, b: &Vec<Expr>) -> (r: bool)
    ensures
        r == (a@.len() == b@.len() && (forall|i: int| #![trigger a@[i]]
            0 <= i < a@.len() ==> expr_eq(a@[i], b@[i]))),
    decreases a@,
{
    if a.len() != b.len() {
        return false;
    }
    let mut i: usize = 0;
    while i < a.len()
        invariant
            i <= a@.len(),
            a@.len() == b@.len(),
            forall|j: int| #![trigger a@[j]] 0 <= j < i ==> expr_eq(a@[j], b@[j]),
        decreases a@.len() - i,
    {
        proof {
            assert(decreases_to!(a@ => a@[i as int]));
        }
        if !(a[i] == b[i]) {
            return false;
        }
        i += 1;
    }
    true
}

impl PartialEq for Expr {
    /// Structural equality over the whole tree.
    fn eq(&self, other: &Self) -> (r: bool)
        decreases *self,
    {
        match (self, other) {
            (Expr::Literal(a), Expr::Literal(b)) => a == b,
            (Expr::Variable(a), Expr::Variable(b)) => a == b,
            (
                Expr::Call { function: f1, args: a1 },
                Expr::Call { function: f2, args: a2 },
            ) => {
                proof {
                    assert(decreases_to!(*self => self->Call_args));
                    assert(decreases_to!(self->Call_args => a1@));
                }
                *f1 == *f2 && expr_list_eq(a1, a2)
            },
            (Expr::List(l1), Expr::List(l2)) => {
                proof {
                    assert(decreases_to!(*self => self->List_0));
                    assert(decreases_to!(self->List_0 => l1@));
                }
                expr_list_eq(l1, l2)
            },
            _ => false,
        }
    }
}

impl vstd::std_specs::cmp::PartialEqSpecImpl for Expr {
    open spec fn obeys_eq_spec() -> bool {
        true
    }

    open spec fn eq_spec(&self, other: &Expr) -> bool {
        expr_eq(*self, *other)
    }
}

impl Expr {
    /// Check if this expression is a literal value.
    pub fn is_literal(&self) -> (r: bool)
        ensures
            r == spec_is_literal(*self),
    {
        matches!(self, Expr::Literal(_))
    }

    /// Check if this expression is a variable reference.
    pub fn is_variable(&self) -> (r: bool)
        ensures
            r == spec_is_variable(*self),
    {
        matches!(self, Expr::Variable(_))
    }

    /// Check if this expression is a function call.
    pub fn is_call(&self) -> (r: bool)
        ensures
            r == spec_is_call(*self),
    {
        matches!(self, Expr::Call { .. })
    }

    /// Check if this expression is a list.
    pub fn is_list(&self) -> (r: bool)
        ensures
            r == spec_is_list(*self),
    {
        matches!(self, Expr::List(_))
    }
}

/// Built-in functions supported by the expression engine: boolean and
/// comparison operators, collection membership tests, and a geo predicate.
#[derive(Debug, Clone, Copy, PartialEq, Eq, Hash, Structural)]
pub enum BuiltinFunction {
    And,
    Or,
    Not,
    Equal,
    NotEqual,
    LessThan,
    LessThanOrEqual,
    GreaterThan,
    GreaterThanOrEqual,
    In,
    NotIn,
    OneOf,
    AllOf,
    NoneOf,
    GeoWithinRadius,
}

/// The spelling of each built-in function.
pub open spec fn spec_as_str(f: BuiltinFunction) -> Seq<char> {
    match f {
        BuiltinFunction::And => "and"@,
        BuiltinFunction::Or => "or"@,
        BuiltinFunction::Not => "not"@,
        BuiltinFunction::Equal => "="@,
        BuiltinFunction::NotEqual => "!="@,
        BuiltinFunction::LessThan => "<"@,
        BuiltinFunction::LessThanOrEqual => "<="@,
        BuiltinFunction::GreaterThan => ">"@,
        BuiltinFunction::GreaterThanOrEqual => ">="@,
        BuiltinFunction::In => "in"@,
        BuiltinFunction::NotIn => "not-in"@,
        BuiltinFunction::OneOf => "one-of"@,
        BuiltinFunction::AllOf => "all-of"@,
        BuiltinFunction::NoneOf => "none-of"@,
        BuiltinFunction::GeoWithinRadius => "geo_within_radius"@,
    }
}

/// The built-in function a text names: the one whose spelling equals the
/// text, or none for any other text, which marks a user-defined function.
pub open spec fn spec_from_str(s: Seq<char>) -> Option<BuiltinFunction> {
    if s == "and"@ {
        Some(BuiltinFunction::And)
    } else if s == "or"@ {
        Some(BuiltinFunction::Or)
    } else if s == "not"@ {
        Some(BuiltinFunction::Not)
    } else if s == "="@ {
        Some(BuiltinFunction::Equal)
    } else if s == "!="@ {
        Some(BuiltinFunction::NotEqual)
    } else if s == "<"@ {
        Some(BuiltinFunction::LessThan)
    } else if s == "<="@ {
        Some(BuiltinFunction::LessThanOrEqual)
    } else if s == ">"@ {
        Some(BuiltinFunction::GreaterThan)
    } else if s == ">="@ {
        Some(BuiltinFunction::GreaterThanOrEqual)
    } else if s == "in"@ {
        Some(BuiltinFunction::In)
    } else if s == "not-in"@ {
        Some(BuiltinFunction::NotIn)
    } else if s == "one-of"@ {
        Some(BuiltinFunction::OneOf)
    } else if s == "all-of"@ {
        Some(BuiltinFunction::AllOf)
    } else if s == "none-of"@ {
        Some(BuiltinFunction::NoneOf)
    } else if s == "geo_within_radius"@ {
        Some(BuiltinFunction::GeoWithinRadius)
    } else {
        None
    }
}

fn str_eq(a: &str, b: &str) -> (r: bool)
    ensures
        r == (a@ == b@),
{
    let a_len = a.unicode_len();
    let b_len = b.unicode_len();
    if a_len != b_len {
        return false;
    }
    let mut i: usize = 0;
    while i < a_len
        invariant
            i <= a_len,
            a_len == a@.len(),
            a_len == b@.len(),
            forall|j: int| 0 <= j < i ==> a@[j] == b@[j],
        decreases a_len - i,
    {
        if a.get_char(i) != b.get_char(i) {
            return false;
        }
        i += 1;
    }
    proof {
        assert(a@ =~= b@);
    }
    true
}

impl BuiltinFunction {
    /// Get the string representation of this function.
    pub fn as_str(&self) -> (r: &'static str)
        ensures
            r@ == spec_as_str(*self),
    {
        match self {
            BuiltinFunction::And => "and",
            BuiltinFunction::Or => "or",
            BuiltinFunction::Not => "not",
            BuiltinFunction::Equal => "=",
            BuiltinFunction::NotEqual => "!=",
            BuiltinFunction::LessThan => "<",
            BuiltinFunction::LessThanOrEqual => "<=",
            BuiltinFunction::GreaterThan => ">",
            BuiltinFunction::GreaterThanOrEqual => ">=",
            BuiltinFunction::In => "in",
            BuiltinFunction::NotIn => "not-in",
            BuiltinFunction::OneOf => "one-of",
            BuiltinFunction::AllOf => "all-of",
            BuiltinFunction::NoneOf => "none-of",
            BuiltinFunction::GeoWithinRadius => "geo_within_radius",
        }
    }

    /// Try to parse a function from its string representation; any unknown
    /// text yields nothing, the signal for a user-defined function.
    pub fn from_str(s: &str) -> (r: Option<BuiltinFunction>)
        ensures
            r == spec_from_str(s@),
    {
        if str_eq(s, "and") {
            Some(BuiltinFunction::And)
        } else if str_eq(s, "or") {
            Some(BuiltinFunction::Or)
        } else if str_eq(s, "not") {
            Some(BuiltinFunction::Not)
        } else if str_eq(s, "=") {
            Some(BuiltinFunction::Equal)
        } else if str_eq(s, "!=") {
            Some(BuiltinFunction::NotEqual)
        } else if str_eq(s, "<") {
            Some(BuiltinFunction::LessThan)
        } else if str_eq(s, "<=") {
            Some(BuiltinFunction::LessThanOrEqual)
        } else if str_eq(s, ">") {
            Some(BuiltinFunction::GreaterThan)
        } else if str_eq(s, ">=") {
            Some(BuiltinFunction::GreaterThanOrEqual)
        } else if str_eq(s, "in") {
            Some(BuiltinFunction::In)
        } else if str_eq(s, "not-in") {
            Some(BuiltinFunction::NotIn)
        } else if str_eq(s, "one-of") {
            Some(BuiltinFunction::OneOf)
        } else if str_eq(s, "all-of") {
            Some(BuiltinFunction::AllOf)
        } else if str_eq(s, "none-of") {
            Some(BuiltinFunction::NoneOf)
        } else if str_eq(s, "geo_within_radius") {
            Some(BuiltinFunction::GeoWithinRadius)
        } else {
            None
        }
    }
}

/// Parsing the spelling of any built-in function yields that function back.
pub proof fn lemma_builtin_round_trip(f: BuiltinFunction)
    ensures
        spec_from_str(spec_as_str(f)) == Some(f),
{
    reveal_strlit("and");
    reveal_strlit("or");
    reveal_strlit("not");
    reveal_strlit("=");
    reveal_strlit("!=");
    reveal_strlit("<");
    reveal_strlit("<=");
    reveal_strlit(">");
    reveal_strlit(">=");
    reveal_strlit("in");
    reveal_strlit("not-in");
    reveal_strlit("one-of");
    reveal_strlit("all-of");
    reveal_strlit("none-of");
    reveal_strlit("geo_within_radius");
    assert("and"@.len() == 3 && "not"@.len() == 3);
    assert("or"@.len() == 2 && "!="@.len() == 2 && "<="@.len() == 2 && ">="@.len() == 2
        && "in"@.len() == 2);
    assert("="@.len() == 1 && "<"@.len() == 1 && ">"@.len() == 1);
    assert("not-in"@.len() == 6 && "one-of"@.len() == 6 && "all-of"@.len() == 6);
    assert("none-of"@.len() == 7 && "geo_within_radius"@.len() == 17);
    assert("and"@[0] == 'a' && "not"@[0] == 'n');
    assert("or"@[0] == 'o' && "!="@[0] == '!' && "<="@[0] == '<' && ">="@[0] == '>'
        && "in"@[0] == 'i');
    assert("="@[0] == '=' && "<"@[0] == '<' && ">"@[0] == '>');
    assert("not-in"@[0] == 'n' && "one-of"@[0] == 'o' && "all-of"@[0] == 'a');
    match f {
        BuiltinFunction::And => assert(spec_from_str(spec_as_str(f)) == Some(f)),
        BuiltinFunction::Or => assert(spec_from_str(spec_as_str(f)) == Some(f)),
        BuiltinFunction::Not => assert(spec_from_str(spec_as_str(f)) == Some(f)),
        BuiltinFunction::Equal => assert(spec_from_str(spec_as_str(f)) == Some(f)),
        BuiltinFunction::NotEqual => assert(spec_from_str(spec_as_str(f)) == Some(f)),
        BuiltinFunction::LessThan => assert(spec_from_str(spec_as_str(f)) == Some(f)),
        BuiltinFunction::LessThanOrEqual => assert(spec_from_str(spec_as_str(f)) == Some(f)),
        BuiltinFunction::GreaterThan => assert(spec_from_str(spec_as_str(f)) == Some(f)),
        BuiltinFunction::GreaterThanOrEqual => assert(spec_from_str(spec_as_str(f)) == Some(f)),
        BuiltinFunction::In => assert(spec_from_str(spec_as_str(f)) == Some(f)),
        BuiltinFunction::NotIn => assert(spec_from_str(spec_as_str(f)) == Some(f)),
        BuiltinFunction::OneOf => assert(spec_from_str(spec_as_str(f)) == Some(f)),
        BuiltinFunction::AllOf => assert(spec_from_str(spec_as_str(f)) == Some(f)),
        BuiltinFunction::NoneOf => assert(spec_from_str(spec_as_str(f)) == Some(f)),
        BuiltinFunction::GeoWithinRadius => assert(spec_from_str(spec_as_str(f)) == Some(f)),
    }
}

/// No two built-in functions share a spelling.
pub proof fn lemma_builtin_spelling_injective(f1: BuiltinFunction, f2: BuiltinFunction)
    ensures
        spec_as_str(f1) == spec_as_str(f2) ==> f1 == f2,
{
    lemma_builtin_round_trip(f1);
    lemma_builtin_round_trip(f2);
}

} // verus!
