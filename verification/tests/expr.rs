use ironwood::BuiltinFunction;
use ironwood::Context;
use ironwood::Expr;
use ironwood::StringId;
use ironwood::Value;

#[test]
fn test_builtin_functions() {
    assert_eq!(BuiltinFunction::from_str("and"), Some(BuiltinFunction::And));
    assert_eq!(BuiltinFunction::from_str("="), Some(BuiltinFunction::Equal));
    assert_eq!(BuiltinFunction::from_str("one-of"), Some(BuiltinFunction::OneOf));
    assert_eq!(BuiltinFunction::from_str("unknown"), None);

    assert_eq!(BuiltinFunction::And.as_str(), "and");
    assert_eq!(BuiltinFunction::Equal.as_str(), "=");
}

#[test]
fn builtin_round_trip_all_variants() {
    let all = vec![
        BuiltinFunction::And,
        BuiltinFunction::Or,
        BuiltinFunction::Not,
        BuiltinFunction::Equal,
        BuiltinFunction::NotEqual,
        BuiltinFunction::LessThan,
        BuiltinFunction::LessThanOrEqual,
        BuiltinFunction::GreaterThan,
        BuiltinFunction::GreaterThanOrEqual,
        BuiltinFunction::In,
        BuiltinFunction::NotIn,
        BuiltinFunction::OneOf,
        BuiltinFunction::AllOf,
        BuiltinFunction::NoneOf,
        BuiltinFunction::GeoWithinRadius,
    ];
    assert_eq!(all.len(), 15);
    for v in all.iter() {
        assert_eq!(BuiltinFunction::from_str(v.as_str()), Some(*v));
    }
    for (i, a) in all.iter().enumerate() {
        for (j, b) in all.iter().enumerate() {
            if i != j {
                assert_ne!(a.as_str(), b.as_str());
            }
        }
    }
}

#[test]
fn builtin_spellings() {
    assert_eq!(BuiltinFunction::Or.as_str(), "or");
    assert_eq!(BuiltinFunction::Not.as_str(), "not");
    assert_eq!(BuiltinFunction::NotEqual.as_str(), "!=");
    assert_eq!(BuiltinFunction::LessThan.as_str(), "<");
    assert_eq!(BuiltinFunction::LessThanOrEqual.as_str(), "<=");
    assert_eq!(BuiltinFunction::GreaterThan.as_str(), ">");
    assert_eq!(BuiltinFunction::GreaterThanOrEqual.as_str(), ">=");
    assert_eq!(BuiltinFunction::In.as_str(), "in");
    assert_eq!(BuiltinFunction::NotIn.as_str(), "not-in");
    assert_eq!(BuiltinFunction::AllOf.as_str(), "all-of");
    assert_eq!(BuiltinFunction::NoneOf.as_str(), "none-of");
    assert_eq!(BuiltinFunction::GeoWithinRadius.as_str(), "geo_within_radius");
}

#[test]
fn expr_tags_are_exclusive() {
    let exprs = vec![
        Expr::Literal(Value::Integer(1)),
        Expr::Variable(StringId::new(0)),
        Expr::Call { function: StringId::new(1), args: vec![] },
        Expr::List(vec![]),
    ];
    let expected = vec![
        (true, false, false, false),
        (false, true, false, false),
        (false, false, true, false),
        (false, false, false, true),
    ];
    for (e, (lit, var, call, list)) in exprs.iter().zip(expected.into_iter()) {
        assert_eq!(e.is_literal(), lit);
        assert_eq!(e.is_variable(), var);
        assert_eq!(e.is_call(), call);
        assert_eq!(e.is_list(), list);
    }
}

#[test]
fn expr_structural_equality() {
    let a = Expr::Call {
        function: StringId::new(0),
        args: vec![Expr::Variable(StringId::new(1)), Expr::Literal(Value::Integer(3))],
    };
    let b = Expr::Call {
        function: StringId::new(0),
        args: vec![Expr::Variable(StringId::new(1)), Expr::Literal(Value::Integer(3))],
    };
    let c = Expr::Call {
        function: StringId::new(0),
        args: vec![Expr::Variable(StringId::new(1)), Expr::Literal(Value::Integer(4))],
    };
    assert_eq!(a, b);
    assert_ne!(a, c);
    assert_ne!(a, Expr::List(vec![]));
    assert_eq!(a.clone(), a);
    let nested = Expr::List(vec![a.clone(), Expr::List(vec![b.clone()])]);
    assert_eq!(nested.clone(), nested);
}

#[test]
fn rule_scenario() {
    let mut ctx = Context::new();
    let price = ctx.intern("price");
    let status = ctx.intern("status");
    let active = ctx.intern("active");
    assert_eq!(price.raw(), 0);
    assert_eq!(status.raw(), 1);
    assert_eq!(active.raw(), 2);
    assert_eq!(ctx.resolve(status), Some("status"));

    let eq_name = ctx.intern("=");
    let rule = Expr::Call {
        function: eq_name,
        args: vec![Expr::Variable(status), Expr::Literal(Value::String(active))],
    };
    assert!(rule.is_call());
    assert_eq!(
        BuiltinFunction::from_str(ctx.resolve(eq_name).unwrap()),
        Some(BuiltinFunction::Equal)
    );
    assert_eq!(BuiltinFunction::from_str("="), Some(BuiltinFunction::Equal));
}
