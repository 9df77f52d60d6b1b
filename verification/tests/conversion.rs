use zokrates_ast::convert::{
    assignee_from, expression_from, statements_from, statements_from_definition,
    statements_from_statement, type_from,
};
use zokrates_ast::number::{parse_big_decimal, parse_u64, BigNat};
use zokrates_ast::parse_tree as pest;
use zokrates_ast::parse_tree::{Position, Span};
use zokrates_ast::symbols::{import_directive_to_symbol_vec, parameter_from};
use zokrates_ast::untyped;
use zokrates_ast::untyped::{Node, UnresolvedType};

/// A span on line `line`, from column `from` to column `to`.
fn at(line: usize, from: usize, to: usize) -> Span {
    Span { start: Position { line, col: from }, end: Position { line, col: to } }
}

fn id(name: &str, span: Span) -> pest::IdentifierExpression {
    pest::IdentifierExpression { value: name.to_string(), span }
}

fn ident(name: &str, span: Span) -> pest::Expression {
    pest::Expression::Identifier(id(name, span))
}

fn literal(digits: &str, suffix: Option<pest::DecimalSuffix>, span: Span) -> pest::LiteralExpression {
    let number = pest::DecimalNumber::new(digits.to_string(), span).unwrap();
    pest::LiteralExpression::DecimalLiteral(
        pest::DecimalLiteralExpression::new(number, suffix, span).unwrap(),
    )
}

fn number(digits: &str, span: Span) -> pest::Expression {
    pest::Expression::Literal(literal(digits, None, span))
}

fn int_constant(n: u64) -> untyped::Expression {
    untyped::Expression::IntConstant(BigNat::from_u64(n))
}

fn mocked(e: untyped::Expression) -> Box<untyped::ExpressionNode> {
    Box::new(Node::mock(e))
}

fn identifier(name: &str) -> untyped::Expression {
    untyped::Expression::Identifier(name.to_string())
}

fn hex(kind: fn(pest::HexNumber) -> pest::HexNumberExpression, digits: &str) -> Option<pest::HexLiteralExpression> {
    let span = at(1, 1, 1);
    pest::HexLiteralExpression::new(kind(pest::HexNumber { value: digits.to_string(), span }), span)
}

fn call_of(name: &str, arguments: Vec<pest::Expression>) -> pest::Expression {
    pest::Expression::Postfix(pest::PostfixExpression {
        base: Box::new(ident(name, at(1, 1, 2))),
        accesses: vec![pest::Access::Call(pest::CallAccess {
            explicit_generics: None,
            arguments: pest::Arguments { expressions: arguments, span: at(1, 3, 4) },
            span: at(1, 2, 5),
        })],
        span: at(1, 1, 5),
    })
}

fn field_type(span: Span) -> pest::Type {
    pest::Type::Basic(pest::BasicType::Field(span))
}

#[test]
fn not_equal_becomes_negated_equality() {
    let span = at(2, 5, 11);
    let e = pest::Expression::Binary(pest::BinaryExpression {
        op: pest::BinaryOperator::NotEq,
        left: Box::new(ident("a", at(2, 5, 6))),
        right: Box::new(ident("b", at(2, 10, 11))),
        span,
    });
    let n = expression_from(&e);
    assert_eq!((n.start, n.end), (span.start, span.end));
    match &n.value {
        untyped::Expression::Not(x) => {
            assert_eq!((x.start, x.end), (span.start, span.end));
            assert_eq!(
                x.value,
                untyped::Expression::Eq(mocked(identifier("a")), mocked(identifier("b")))
            );
        }
        other => panic!("expected a negation, found {:?}", other),
    }
}

#[test]
fn binary_operators_map_to_operations() {
    let cases: Vec<(pest::BinaryOperator, fn(Box<untyped::ExpressionNode>, Box<untyped::ExpressionNode>) -> untyped::Expression)> = vec![
        (pest::BinaryOperator::Add, untyped::Expression::Add),
        (pest::BinaryOperator::Sub, untyped::Expression::Sub),
        (pest::BinaryOperator::Mul, untyped::Expression::Mult),
        (pest::BinaryOperator::Div, untyped::Expression::Div),
        (pest::BinaryOperator::Rem, untyped::Expression::Rem),
        (pest::BinaryOperator::Pow, untyped::Expression::Pow),
        (pest::BinaryOperator::Eq, untyped::Expression::Eq),
        (pest::BinaryOperator::Lt, untyped::Expression::Lt),
        (pest::BinaryOperator::Lte, untyped::Expression::Le),
        (pest::BinaryOperator::Gt, untyped::Expression::Gt),
        (pest::BinaryOperator::Gte, untyped::Expression::Ge),
        (pest::BinaryOperator::And, untyped::Expression::And),
        (pest::BinaryOperator::Or, untyped::Expression::Or),
        (pest::BinaryOperator::BitXor, untyped::Expression::BitXor),
        (pest::BinaryOperator::BitAnd, untyped::Expression::BitAnd),
        (pest::BinaryOperator::BitOr, untyped::Expression::BitOr),
        (pest::BinaryOperator::LeftShift, untyped::Expression::LeftShift),
        (pest::BinaryOperator::RightShift, untyped::Expression::RightShift),
    ];
    for (op, expected) in cases {
        let e = pest::Expression::Binary(pest::BinaryExpression {
            op,
            left: Box::new(ident("x", at(1, 1, 2))),
            right: Box::new(number("7", at(1, 5, 6))),
            span: at(1, 1, 6),
        });
        let n = expression_from(&e);
        assert_eq!(n.value, expected(mocked(identifier("x")), mocked(int_constant(7))));
    }
}

#[test]
fn decimal_literals_with_suffixes() {
    let span = at(3, 1, 5);
    let cases = vec![
        (Some(pest::DecimalSuffix::U8), "255", untyped::Expression::U8Constant(255)),
        (Some(pest::DecimalSuffix::U16), "65535", untyped::Expression::U16Constant(65535)),
        (Some(pest::DecimalSuffix::U32), "4294967295", untyped::Expression::U32Constant(4294967295)),
        (
            Some(pest::DecimalSuffix::U64),
            "18446744073709551615",
            untyped::Expression::U64Constant(18446744073709551615),
        ),
        (Some(pest::DecimalSuffix::Field), "0042", untyped::Expression::FieldConstant(BigNat::from_u64(42))),
        (None, "0", untyped::Expression::IntConstant(BigNat::from_u64(0))),
    ];
    for (suffix, digits, expected) in cases {
        let n = expression_from(&pest::Expression::Literal(literal(digits, suffix, span)));
        assert_eq!(n.value, expected);
        assert_eq!((n.start, n.end), (span.start, span.end));
    }
}

#[test]
fn numbers_beyond_machine_integers() {
    let n = expression_from(&number("18446744073709551616", at(1, 1, 21)));
    assert_eq!(n.value, untyped::Expression::IntConstant(BigNat { digits: vec![0, 0, 1] }));
    // ten to the thirtieth power
    assert_eq!(
        parse_big_decimal("1000000000000000000000000000000").digits,
        vec![1073741824, 1182068202, 2670501072, 12]
    );
    assert_eq!(parse_big_decimal("4294967296").digits, vec![0, 1]);
    assert_eq!(parse_big_decimal("7").digits, vec![7]);
}

#[test]
fn machine_integer_parsing() {
    assert_eq!(parse_u64("18446744073709551615", 10), Some(u64::MAX));
    assert_eq!(parse_u64("18446744073709551616", 10), None);
    assert_eq!(parse_u64("99999999999999999999", 10), None);
    assert_eq!(parse_u64("ff", 16), Some(255));
    assert_eq!(parse_u64("DeadBeef", 16), Some(0xdeadbeef));
    assert_eq!(parse_u64("10000000000000000", 16), None);
    assert_eq!(parse_u64("", 10), Some(0));
}

#[test]
fn hex_literals_take_the_type_their_digits_select() {
    let cases = vec![
        (hex(pest::HexNumberExpression::U8, "ff"), untyped::Expression::U8Constant(255)),
        (hex(pest::HexNumberExpression::U16, "0a0B"), untyped::Expression::U16Constant(0x0a0b)),
        (hex(pest::HexNumberExpression::U32, "00000010"), untyped::Expression::U32Constant(16)),
        (
            hex(pest::HexNumberExpression::U64, "ffffffffffffffff"),
            untyped::Expression::U64Constant(u64::MAX),
        ),
    ];
    for (h, expected) in cases {
        let n = expression_from(&pest::Expression::Literal(pest::LiteralExpression::HexLiteral(h.unwrap())));
        assert_eq!(n.value, expected);
    }
}

#[test]
fn literal_constructors_refuse_what_the_grammar_excludes() {
    let span = at(1, 1, 1);
    assert!(pest::DecimalNumber::new("12a".to_string(), span).is_none());
    assert!(pest::DecimalNumber::new("".to_string(), span).is_none());
    assert!(pest::DecimalNumber::new("+1".to_string(), span).is_none());
    let big = || pest::DecimalNumber::new("256".to_string(), span).unwrap();
    assert!(pest::DecimalLiteralExpression::new(big(), Some(pest::DecimalSuffix::U8), span).is_none());
    assert!(pest::DecimalLiteralExpression::new(big(), Some(pest::DecimalSuffix::U16), span).is_some());
    assert!(pest::DecimalLiteralExpression::new(big(), None, span).is_some());
    let huge = pest::DecimalNumber::new("18446744073709551616".to_string(), span).unwrap();
    assert!(pest::DecimalLiteralExpression::new(huge, Some(pest::DecimalSuffix::U64), span).is_none());
    assert!(pest::BooleanLiteralExpression::new("yes".to_string(), span).is_none());
    assert!(pest::BooleanLiteralExpression::new("false".to_string(), span).is_some());
    assert!(hex(pest::HexNumberExpression::U8, "1ff").is_none());
    assert!(hex(pest::HexNumberExpression::U8, "g0").is_none());
    assert!(hex(pest::HexNumberExpression::U8, "").is_none());
    let index = pest::DecimalNumber::new("4294967296".to_string(), span).unwrap();
    assert!(pest::DotAccess::new(pest::IdentifierOrDecimal::Decimal(index), span).is_none());
    let index = pest::DecimalNumber::new("4294967295".to_string(), span).unwrap();
    assert!(pest::DotAccess::new(pest::IdentifierOrDecimal::Decimal(index), span).is_some());
}

#[test]
fn boolean_literals() {
    let span = at(1, 1, 6);
    for (text, value) in [("true", true), ("false", false)] {
        let b = pest::BooleanLiteralExpression::new(text.to_string(), span).unwrap();
        let n = expression_from(&pest::Expression::Literal(pest::LiteralExpression::BooleanLiteral(b)));
        assert_eq!(n.value, untyped::Expression::BooleanConstant(value));
    }
}

#[test]
fn postfix_accesses_apply_left_to_right_at_their_positions() {
    // a.x.0[1..](2)
    let span = at(4, 1, 14);
    let p = pest::Expression::Postfix(pest::PostfixExpression {
        base: Box::new(ident("a", at(4, 1, 2))),
        accesses: vec![
            pest::Access::Dot(
                pest::DotAccess::new(pest::IdentifierOrDecimal::Identifier(id("x", at(4, 3, 4))), at(4, 2, 4))
                    .unwrap(),
            ),
            pest::Access::Dot(
                pest::DotAccess::new(
                    pest::IdentifierOrDecimal::Decimal(
                        pest::DecimalNumber::new("0".to_string(), at(4, 5, 6)).unwrap(),
                    ),
                    at(4, 4, 6),
                )
                .unwrap(),
            ),
            pest::Access::Select(pest::ArrayAccess {
                expression: pest::RangeOrExpression::Range(pest::Range {
                    from: Some(number("1", at(4, 7, 8))),
                    to: None,
                    span: at(4, 7, 10),
                }),
                span: at(4, 6, 11),
            }),
            pest::Access::Call(pest::CallAccess {
                explicit_generics: Some(pest::ExplicitGenerics {
                    values: vec![
                        pest::ConstantGenericValue::Underscore,
                        pest::ConstantGenericValue::Value(literal("3", None, at(4, 11, 12))),
                        pest::ConstantGenericValue::Identifier(id("N", at(4, 12, 13))),
                    ],
                    span: at(4, 11, 13),
                }),
                arguments: pest::Arguments { expressions: vec![number("2", at(4, 12, 13))], span: at(4, 12, 13) },
                span: at(4, 11, 14),
            }),
        ],
        span,
    });
    let n = expression_from(&p);
    let expected = untyped::Expression::FunctionCall(
        mocked(untyped::Expression::Select(
            mocked(untyped::Expression::Element(
                mocked(untyped::Expression::Member(mocked(identifier("a")), Box::new("x".to_string()))),
                0,
            )),
            Box::new(untyped::RangeOrExpression::Range(Node::mock(untyped::Range {
                from: Some(Node::mock(int_constant(1))),
                to: None,
            }))),
        )),
        Some(vec![None, Some(Node::mock(int_constant(3))), Some(Node::mock(identifier("N")))]),
        vec![Node::mock(int_constant(2))],
    );
    assert_eq!(n.value, expected);
    // the outermost node is the last access
    assert_eq!((n.start, n.end), (at(4, 11, 14).start, at(4, 11, 14).end));
    match &n.value {
        untyped::Expression::FunctionCall(f, ..) => assert_eq!(f.end, at(4, 6, 11).end),
        _ => unreachable!(),
    }
}

#[test]
fn conditionals() {
    let ternary = pest::Expression::Ternary(pest::TernaryExpression {
        condition: Box::new(ident("c", at(1, 1, 2))),
        consequence: Box::new(number("1", at(1, 5, 6))),
        alternative: Box::new(number("2", at(1, 9, 10))),
        span: at(1, 1, 10),
    });
    let expected = |kind, consequence_statements, alternative_statements| {
        untyped::Expression::Conditional(Box::new(untyped::ConditionalExpression {
            condition: mocked(identifier("c")),
            consequence_statements,
            consequence: mocked(int_constant(1)),
            alternative_statements,
            alternative: mocked(int_constant(2)),
            kind,
        }))
    };
    assert_eq!(expression_from(&ternary).value, expected(untyped::ConditionalKind::Ternary, vec![], vec![]));

    // if c { assert(c); 1 } else { 2 }
    let if_else = pest::Expression::IfElse(pest::IfElseExpression {
        condition: Box::new(ident("c", at(1, 4, 5))),
        consequence_statements: vec![pest::Statement::Assertion(pest::AssertionStatement {
            expression: ident("c", at(1, 15, 16)),
            message: None,
            span: at(1, 8, 18),
        })],
        consequence: Box::new(number("1", at(1, 19, 20))),
        alternative_statements: vec![],
        alternative: Box::new(number("2", at(1, 30, 31))),
        span: at(1, 1, 33),
    });
    assert_eq!(
        expression_from(&if_else).value,
        expected(
            untyped::ConditionalKind::IfElse,
            vec![Node::mock(untyped::Statement::Assertion(Node::mock(identifier("c")), None))],
            vec![]
        )
    );
}

#[test]
fn inline_values_and_unary_operations() {
    let array = pest::Expression::InlineArray(pest::InlineArrayExpression {
        expressions: vec![
            pest::SpreadOrExpression::Expression(number("1", at(1, 2, 3))),
            pest::SpreadOrExpression::Spread(pest::Spread { expression: ident("a", at(1, 8, 9)), span: at(1, 5, 9) }),
        ],
        span: at(1, 1, 10),
    });
    assert_eq!(
        expression_from(&array).value,
        untyped::Expression::InlineArray(vec![
            untyped::SpreadOrExpression::Expression(Node::mock(int_constant(1))),
            untyped::SpreadOrExpression::Spread(Node::mock(untyped::Spread { expression: Node::mock(identifier("a")) })),
        ])
    );
    let tuple = pest::Expression::InlineTuple(pest::InlineTupleExpression {
        elements: vec![number("1", at(1, 2, 3)), ident("b", at(1, 5, 6))],
        span: at(1, 1, 7),
    });
    assert_eq!(
        expression_from(&tuple).value,
        untyped::Expression::InlineTuple(vec![Node::mock(int_constant(1)), Node::mock(identifier("b"))])
    );
    let structure = pest::Expression::InlineStruct(pest::InlineStructExpression {
        ty: id("Point", at(1, 1, 6)),
        members: vec![
            pest::InlineStructMember { id: id("x", at(1, 9, 10)), expression: number("1", at(1, 12, 13)), span: at(1, 9, 13) },
            pest::InlineStructMember { id: id("y", at(1, 15, 16)), expression: number("2", at(1, 18, 19)), span: at(1, 15, 19) },
        ],
        span: at(1, 1, 21),
    });
    assert_eq!(
        expression_from(&structure).value,
        untyped::Expression::InlineStruct(
            "Point".to_string(),
            vec![("x".to_string(), Node::mock(int_constant(1))), ("y".to_string(), Node::mock(int_constant(2)))]
        )
    );
    let initializer = pest::Expression::ArrayInitializer(pest::ArrayInitializerExpression {
        value: Box::new(number("0", at(1, 2, 3))),
        count: Box::new(number("3", at(1, 5, 6))),
        span: at(1, 1, 7),
    });
    assert_eq!(
        expression_from(&initializer).value,
        untyped::Expression::ArrayInitializer(mocked(int_constant(0)), mocked(int_constant(3)))
    );
    let unary = |op| {
        expression_from(&pest::Expression::Unary(pest::UnaryExpression {
            op,
            expression: Box::new(ident("v", at(1, 2, 3))),
            span: at(1, 1, 3),
        }))
        .value
    };
    assert_eq!(unary(pest::UnaryOperator::Not), untyped::Expression::Not(mocked(identifier("v"))));
    assert_eq!(unary(pest::UnaryOperator::Neg), untyped::Expression::Neg(mocked(identifier("v"))));
    assert_eq!(unary(pest::UnaryOperator::Pos), untyped::Expression::Pos(mocked(identifier("v"))));
}

fn array_of(ty: pest::BasicOrStructOrTupleType, dimensions: Vec<&str>, span: Span) -> pest::Type {
    let mut dims = dimensions.into_iter().map(|d| number(d, at(9, 1, 2)));
    let outer = dims.next().unwrap();
    pest::Type::Array(pest::ArrayType {
        ty,
        outer_dimension: Box::new(outer),
        inner_dimensions: dims.collect(),
        span,
    })
}

fn depth(t: &UnresolvedType) -> usize {
    match t {
        UnresolvedType::Array(inner, _) => 1 + depth(&inner.value),
        _ => 0,
    }
}

#[test]
fn array_types_nest_first_dimension_outermost() {
    let span = at(9, 1, 15);
    let ty = array_of(
        pest::BasicOrStructOrTupleType::Basic(pest::BasicType::U8(at(9, 1, 3))),
        vec!["2", "3", "4"],
        span,
    );
    let n = type_from(&ty);
    assert_eq!(depth(&n.value), 3);
    let uint8 = Node::mock(UnresolvedType::Uint(8));
    let expected = UnresolvedType::Array(
        Box::new(Node::mock(UnresolvedType::Array(
            Box::new(Node::mock(UnresolvedType::Array(Box::new(uint8), Node::mock(int_constant(4))))),
            Node::mock(int_constant(3)),
        ))),
        Node::mock(int_constant(2)),
    );
    assert_eq!(n.value, expected);
    // every array node stands at the array type; the element at its own span
    match &n.value {
        UnresolvedType::Array(inner, _) => {
            assert_eq!((inner.start, inner.end), (span.start, span.end));
            match &inner.value {
                UnresolvedType::Array(inner, _) => match &inner.value {
                    UnresolvedType::Array(element, _) => assert_eq!(element.end, at(9, 1, 3).end),
                    _ => unreachable!(),
                },
                _ => unreachable!(),
            }
        }
        _ => unreachable!(),
    }
}

#[test]
fn struct_and_tuple_types() {
    let generic_struct = pest::StructType {
        id: id("Pair", at(1, 1, 5)),
        explicit_generics: Some(pest::ExplicitGenerics {
            values: vec![pest::ConstantGenericValue::Value(literal("2", None, at(1, 6, 7)))],
            span: at(1, 6, 7),
        }),
        span: at(1, 1, 8),
    };
    assert_eq!(
        type_from(&pest::Type::Struct(generic_struct)).value,
        UnresolvedType::User("Pair".to_string(), Some(vec![Some(Node::mock(int_constant(2)))]))
    );
    let tuple = pest::Type::Tuple(pest::TupleType {
        elements: vec![field_type(at(1, 2, 7)), pest::Type::Basic(pest::BasicType::Boolean(at(1, 9, 13)))],
        span: at(1, 1, 14),
    });
    assert_eq!(
        type_from(&tuple).value,
        UnresolvedType::Tuple(vec![Node::mock(UnresolvedType::FieldElement), Node::mock(UnresolvedType::Boolean)])
    );
    let array_of_tuples = array_of(
        pest::BasicOrStructOrTupleType::Tuple(pest::TupleType { elements: vec![], span: at(1, 1, 3) }),
        vec!["5"],
        at(1, 1, 6),
    );
    assert_eq!(
        type_from(&array_of_tuples).value,
        UnresolvedType::Array(Box::new(Node::mock(UnresolvedType::Tuple(vec![]))), Node::mock(int_constant(5)))
    );
}

#[test]
fn single_typed_definition_declares_then_defines() {
    let span = at(5, 1, 12);
    let typed = |expression| pest::DefinitionStatement {
        lhs: vec![pest::TypedIdentifierOrAssignee::TypedIdentifier(pest::TypedIdentifier {
            ty: field_type(at(5, 1, 6)),
            identifier: id("a", at(5, 7, 8)),
            span: at(5, 1, 8),
        })],
        expression,
        span,
    };
    let statements = statements_from_definition(typed(number("1", at(5, 11, 12))));
    assert_eq!(statements.len(), 2);
    assert_eq!(
        statements[0].value,
        untyped::Statement::Declaration(Node::mock(untyped::Variable::new(
            "a".to_string(),
            Node::mock(UnresolvedType::FieldElement)
        )))
    );
    assert_eq!((statements[0].start, statements[0].end), (span.start, span.end));
    assert_eq!(
        statements[1].value,
        untyped::Statement::Definition(
            Node::mock(untyped::Assignee::Identifier("a".to_string())),
            Node::mock(int_constant(1))
        )
    );
    let statements = statements_from_definition(typed(call_of("f", vec![])));
    assert_eq!(statements.len(), 2);
    match &statements[1].value {
        untyped::Statement::MultipleDefinition(targets, _) => assert_eq!(targets.len(), 1),
        other => panic!("expected a multiple definition, found {:?}", other),
    }
}

#[test]
fn multiple_definition_declares_each_typed_target() {
    // field a, b[1].c, u32 d = f();
    let b = pest::Assignee {
        id: id("b", at(1, 10, 11)),
        accesses: vec![
            pest::AssigneeAccess::Select(pest::ArrayAccess {
                expression: pest::RangeOrExpression::Expression(number("1", at(1, 12, 13))),
                span: at(1, 11, 14),
            }),
            pest::AssigneeAccess::Dot(
                pest::DotAccess::new(pest::IdentifierOrDecimal::Identifier(id("c", at(1, 15, 16))), at(1, 14, 16))
                    .unwrap(),
            ),
        ],
        span: at(1, 10, 16),
    };
    let definition = pest::DefinitionStatement {
        lhs: vec![
            pest::TypedIdentifierOrAssignee::TypedIdentifier(pest::TypedIdentifier {
                ty: field_type(at(1, 1, 6)),
                identifier: id("a", at(1, 7, 8)),
                span: at(1, 1, 8),
            }),
            pest::TypedIdentifierOrAssignee::Assignee(b),
            pest::TypedIdentifierOrAssignee::TypedIdentifier(pest::TypedIdentifier {
                ty: pest::Type::Basic(pest::BasicType::U32(at(1, 18, 21))),
                identifier: id("d", at(1, 22, 23)),
                span: at(1, 18, 23),
            }),
        ],
        expression: call_of("f", vec![]),
        span: at(1, 1, 30),
    };
    let statements = statements_from_definition(definition);
    assert_eq!(statements.len(), 3);
    assert_eq!(
        statements[0].value,
        untyped::Statement::Declaration(Node::mock(untyped::Variable::new(
            "a".to_string(),
            Node::mock(UnresolvedType::FieldElement)
        )))
    );
    // a declaration stands at its typed target
    assert_eq!((statements[0].start, statements[0].end), (at(1, 1, 8).start, at(1, 1, 8).end));
    assert_eq!(
        statements[1].value,
        untyped::Statement::Declaration(Node::mock(untyped::Variable::new(
            "d".to_string(),
            Node::mock(UnresolvedType::Uint(32))
        )))
    );
    let b_c = untyped::Assignee::Member(
        Box::new(Node::mock(untyped::Assignee::Select(
            Box::new(Node::mock(untyped::Assignee::Identifier("b".to_string()))),
            Box::new(untyped::RangeOrExpression::Expression(Node::mock(int_constant(1)))),
        ))),
        Box::new("c".to_string()),
    );
    assert_eq!(
        statements[2].value,
        untyped::Statement::MultipleDefinition(
            vec![
                Node::mock(untyped::Assignee::Identifier("a".to_string())),
                Node::mock(b_c),
                Node::mock(untyped::Assignee::Identifier("d".to_string())),
            ],
            Node::mock(untyped::Expression::FunctionCall(mocked(identifier("f")), None, vec![]))
        )
    );
    assert_eq!(statements[2].end, at(1, 1, 30).end);
}

#[test]
fn assignee_accesses_stand_at_the_assignee() {
    let span = at(7, 3, 9);
    let a = pest::Assignee {
        id: id("t", at(7, 3, 4)),
        accesses: vec![pest::AssigneeAccess::Dot(
            pest::DotAccess::new(
                pest::IdentifierOrDecimal::Decimal(pest::DecimalNumber::new("1".to_string(), at(7, 5, 6)).unwrap()),
                at(7, 4, 6),
            )
            .unwrap(),
        )],
        span,
    };
    let n = assignee_from(&a);
    assert_eq!(
        n.value,
        untyped::Assignee::Element(Box::new(Node::mock(untyped::Assignee::Identifier("t".to_string()))), 1)
    );
    assert_eq!((n.start, n.end), (span.start, span.end));
    match &n.value {
        untyped::Assignee::Element(inner, _) => assert_eq!(inner.end, at(7, 3, 4).end),
        _ => unreachable!(),
    }
}

#[test]
fn loops_assertions_and_statement_counts() {
    let body = vec![pest::Statement::Definition(pest::DefinitionStatement {
        lhs: vec![pest::TypedIdentifierOrAssignee::TypedIdentifier(pest::TypedIdentifier {
            ty: field_type(at(2, 5, 10)),
            identifier: id("x", at(2, 11, 12)),
            span: at(2, 5, 12),
        })],
        expression: ident("i", at(2, 15, 16)),
        span: at(2, 5, 17),
    })];
    let for_loop = pest::Statement::Iteration(pest::IterationStatement {
        id: pest::TypedIdentifier {
            ty: pest::Type::Basic(pest::BasicType::U32(at(1, 5, 8))),
            identifier: id("i", at(1, 9, 10)),
            span: at(1, 5, 10),
        },
        from: number("0", at(1, 14, 15)),
        to: number("3", at(1, 17, 18)),
        statements: body,
        span: at(1, 1, 30),
    });
    let statements = statements_from_statement(&for_loop);
    assert_eq!(statements.len(), 1);
    match &statements[0].value {
        untyped::Statement::For(var, from, to, body) => {
            assert_eq!(
                var.value,
                untyped::Variable::new("i".to_string(), Node::mock(UnresolvedType::Uint(32)))
            );
            assert_eq!(var.end, at(1, 9, 10).end);
            assert_eq!(from.value, int_constant(0));
            assert_eq!(to.value, int_constant(3));
            assert_eq!(body.len(), 2);
        }
        other => panic!("expected a loop, found {:?}", other),
    }
    let with_message = pest::Statement::Assertion(pest::AssertionStatement {
        expression: ident("ok", at(3, 8, 10)),
        message: Some(pest::AnyString { value: "not ok".to_string(), span: at(3, 13, 19) }),
        span: at(3, 1, 21),
    });
    let statements = statements_from(&vec![
        with_message,
        pest::Statement::Return(pest::ReturnStatement { expressions: vec![], span: at(4, 1, 8) }),
    ]);
    assert_eq!(statements.len(), 2);
    assert_eq!(
        statements[0].value,
        untyped::Statement::Assertion(Node::mock(identifier("ok")), Some("not ok".to_string()))
    );
    assert_eq!(
        statements[1].value,
        untyped::Statement::Return(Node::mock(untyped::ExpressionList { expressions: vec![] }))
    );
    assert_eq!(statements[1].start, at(4, 1, 8).start);
}

fn import_source(path: &str) -> pest::AnyString {
    pest::AnyString { value: path.to_string(), span: at(1, 6, 6 + path.len()) }
}

fn imported(source: &str, id: &str, alias: Option<&str>) -> untyped::SymbolDefinition {
    untyped::SymbolDefinition::Import(Node::mock(untyped::CanonicalImport {
        source: source.to_string(),
        id: untyped::SymbolIdentifier { id: id.to_string(), alias: alias.map(|a| a.to_string()) },
    }))
}

#[test]
fn imports_declare_main_or_each_symbol() {
    let main = pest::ImportDirective::Main(pest::MainImportDirective {
        source: import_source("./lib"),
        alias: None,
        span: at(1, 1, 14),
    });
    let symbols = import_directive_to_symbol_vec(&main);
    assert_eq!(symbols.len(), 1);
    assert_eq!(symbols[0].value.id, "main");
    assert_eq!(symbols[0].value.symbol, untyped::Symbol::Here(imported("./lib", "main", None)));

    let aliased = pest::ImportDirective::Main(pest::MainImportDirective {
        source: import_source("./lib"),
        alias: Some(id("lib", at(1, 18, 21))),
        span: at(1, 1, 21),
    });
    let symbols = import_directive_to_symbol_vec(&aliased);
    assert_eq!(symbols[0].value.id, "lib");
    assert_eq!(symbols[0].value.symbol, untyped::Symbol::Here(imported("./lib", "main", Some("lib"))));

    let from = pest::ImportDirective::From(pest::FromImportDirective {
        source: import_source("./lib"),
        symbols: vec![
            pest::ImportSymbol { id: id("f", at(1, 20, 21)), alias: None, span: at(1, 20, 21) },
            pest::ImportSymbol { id: id("g", at(1, 23, 24)), alias: Some(id("h", at(1, 28, 29))), span: at(1, 23, 29) },
        ],
        span: at(1, 1, 30),
    });
    let symbols = import_directive_to_symbol_vec(&from);
    assert_eq!(symbols.len(), 2);
    assert_eq!(symbols[0].value.id, "f");
    assert_eq!(symbols[0].value.symbol, untyped::Symbol::Here(imported("./lib", "f", Some("f"))));
    assert_eq!(symbols[1].value.id, "h");
    assert_eq!(symbols[1].value.symbol, untyped::Symbol::Here(imported("./lib", "g", Some("h"))));
    assert_eq!((symbols[1].start, symbols[1].end), (at(1, 1, 30).start, at(1, 1, 30).end));
}

#[test]
fn a_module_holds_every_declared_symbol_in_order() {
    let file = pest::File {
        declarations: vec![
            pest::SymbolDeclaration::Import(pest::ImportDirective::From(pest::FromImportDirective {
                source: import_source("./a"),
                symbols: vec![
                    pest::ImportSymbol { id: id("x", at(1, 1, 2)), alias: None, span: at(1, 1, 2) },
                    pest::ImportSymbol { id: id("y", at(1, 1, 2)), alias: None, span: at(1, 1, 2) },
                ],
                span: at(1, 1, 20),
            })),
            pest::SymbolDeclaration::Constant(pest::ConstantDefinition {
                id: pest::TypedIdentifier {
                    ty: field_type(at(2, 7, 12)),
                    identifier: id("ONE", at(2, 13, 16)),
                    span: at(2, 7, 16),
                },
                expression: number("1", at(2, 19, 20)),
                span: at(2, 1, 21),
            }),
            pest::SymbolDeclaration::Struct(pest::StructDefinition {
                id: id("Foo", at(3, 8, 11)),
                generics: vec![id("N", at(3, 12, 13))],
                fields: vec![pest::StructField {
                    id: pest::TypedIdentifier {
                        ty: array_of(
                            pest::BasicOrStructOrTupleType::Basic(pest::BasicType::Field(at(3, 16, 21))),
                            vec!["2"],
                            at(3, 16, 24),
                        ),
                        identifier: id("v", at(3, 25, 26)),
                        span: at(3, 16, 26),
                    },
                    span: at(3, 16, 27),
                }],
                span: at(3, 1, 29),
            }),
            pest::SymbolDeclaration::Type(pest::TypeDefinition {
                id: id("Bar", at(4, 6, 9)),
                generics: vec![],
                ty: field_type(at(4, 12, 17)),
                span: at(4, 1, 18),
            }),
        ],
        span: at(1, 1, 40),
    };
    let module = untyped::Module::from(file);
    assert_eq!(module.symbols.len(), 5);
    let ids: Vec<&str> = module.symbols.iter().map(|s| s.value.id.as_str()).collect();
    assert_eq!(ids, vec!["x", "y", "ONE", "Foo", "Bar"]);
    assert_eq!(
        module.symbols[2].value.symbol,
        untyped::Symbol::Here(untyped::SymbolDefinition::Constant(Node::mock(untyped::ConstantDefinition {
            ty: Node::mock(UnresolvedType::FieldElement),
            expression: Node::mock(int_constant(1)),
        })))
    );
    assert_eq!(
        module.symbols[3].value.symbol,
        untyped::Symbol::Here(untyped::SymbolDefinition::Struct(Node::mock(untyped::StructDefinition {
            generics: vec![Node::mock("N".to_string())],
            fields: vec![Node::mock(untyped::StructDefinitionField {
                id: "v".to_string(),
                ty: Node::mock(UnresolvedType::Array(
                    Box::new(Node::mock(UnresolvedType::FieldElement)),
                    Node::mock(int_constant(2)),
                )),
            })],
        })))
    );
    assert_eq!(
        module.symbols[4].value.symbol,
        untyped::Symbol::Here(untyped::SymbolDefinition::Type(Node::mock(untyped::TypeDefinition {
            generics: vec![],
            ty: Node::mock(UnresolvedType::FieldElement),
        })))
    );
    assert_eq!(module.symbols[3].start, at(3, 1, 29).start);
}

#[test]
fn parameters_are_private_only_when_declared_private() {
    let parameter = |visibility| pest::Parameter {
        visibility,
        ty: field_type(at(1, 1, 6)),
        id: id("p", at(1, 7, 8)),
        span: at(1, 1, 8),
    };
    assert!(parameter_from(&parameter(Some(pest::Visibility::Private))).value.is_private);
    assert!(!parameter_from(&parameter(Some(pest::Visibility::Public))).value.is_private);
    assert!(!parameter_from(&parameter(None)).value.is_private);
}

#[test]
fn nodes_compare_by_value_only() {
    let p = |line| Position { line, col: 1 };
    let a = Node::new(p(1), p(1), identifier("a"));
    let b = Node::new(p(2), p(3), identifier("a"));
    assert_eq!(a, b);
    assert_ne!(a, Node::new(p(1), p(1), identifier("b")));
}

#[test]
fn big_naturals_from_machine_integers() {
    assert_eq!(BigNat::from_u64(0).digits, Vec::<u32>::new());
    assert_eq!(BigNat::from_u64(7).digits, vec![7]);
    assert_eq!(BigNat::from_u64(u64::MAX).digits, vec![u32::MAX, u32::MAX]);
    assert_eq!(BigNat::from_u64(1 << 32).digits, vec![0, 1]);
}

#[test]
fn ternary_is_if_else_without_statements_but_for_its_kind() {
    let span = at(1, 1, 10);
    let ternary = expression_from(&pest::Expression::Ternary(pest::TernaryExpression {
        condition: Box::new(ident("c", at(1, 1, 2))),
        consequence: Box::new(number("1", at(1, 5, 6))),
        alternative: Box::new(number("2", at(1, 9, 10))),
        span,
    }));
    let if_else = expression_from(&pest::Expression::IfElse(pest::IfElseExpression {
        condition: Box::new(ident("c", at(1, 1, 2))),
        consequence_statements: vec![],
        consequence: Box::new(number("1", at(1, 5, 6))),
        alternative_statements: vec![],
        alternative: Box::new(number("2", at(1, 9, 10))),
        span,
    }));
    match (ternary.value, if_else.value) {
        (untyped::Expression::Conditional(t), untyped::Expression::Conditional(f)) => {
            assert_eq!(t.kind, untyped::ConditionalKind::Ternary);
            assert_eq!(f.kind, untyped::ConditionalKind::IfElse);
            assert_eq!(untyped::ConditionalExpression { kind: untyped::ConditionalKind::IfElse, ..*t }, *f);
        }
        other => panic!("expected two conditionals, found {:?}", other),
    }
}

#[test]
fn postfix_without_accesses_is_its_base() {
    let base = || ident("q", at(6, 2, 3));
    let postfix = pest::Expression::Postfix(pest::PostfixExpression {
        base: Box::new(base()),
        accesses: vec![],
        span: at(6, 1, 4),
    });
    let n = expression_from(&postfix);
    let b = expression_from(&base());
    assert_eq!(n, b);
    assert_eq!((n.start, n.end), (b.start, b.end));
}
