use zokrates_ast::convert::statements_from_definition;
use zokrates_ast::number::BigNat;
use zokrates_ast::parse_tree as pest;
use zokrates_ast::parse_tree::{Position, Span};
use zokrates_ast::untyped;
use zokrates_ast::untyped::{Node, UnresolvedSignature, UnresolvedType};

// The parse trees below are those the grammar gives for the sources named in
// each test; a span covers the bytes `from..to` of the one-line source.

fn span(from: usize, to: usize) -> Span {
    Span {
        start: Position { line: 1, col: from + 1 },
        end: Position { line: 1, col: to + 1 },
    }
}

fn ident(source: &str, from: usize, to: usize) -> pest::IdentifierExpression {
    pest::IdentifierExpression { value: source[from..to].to_string(), span: span(from, to) }
}

fn decimal(source: &str, from: usize, to: usize, suffix: Option<pest::DecimalSuffix>, end: usize) -> pest::LiteralExpression {
    let number = pest::DecimalNumber::new(source[from..to].to_string(), span(from, to)).unwrap();
    pest::LiteralExpression::DecimalLiteral(
        pest::DecimalLiteralExpression::new(number, suffix, span(from, end)).unwrap(),
    )
}

fn decimal_expression(source: &str, from: usize, to: usize) -> pest::Expression {
    pest::Expression::Literal(decimal(source, from, to, None, to))
}

fn boolean(source: &str, from: usize, to: usize) -> pest::Expression {
    pest::Expression::Literal(pest::LiteralExpression::BooleanLiteral(
        pest::BooleanLiteralExpression::new(source[from..to].to_string(), span(from, to)).unwrap(),
    ))
}

fn function(
    source: &str,
    parameters: Vec<pest::Parameter>,
    returns: Vec<pest::Type>,
    statements: Vec<pest::Statement>,
) -> pest::File {
    pest::File {
        declarations: vec![pest::SymbolDeclaration::Function(pest::FunctionDefinition {
            id: ident(source, 4, 8),
            generics: vec![],
            parameters,
            returns,
            statements,
            span: span(0, source.len()),
        })],
        span: span(0, source.len()),
    }
}

fn return_statement(expressions: Vec<pest::Expression>, from: usize, to: usize) -> pest::Statement {
    pest::Statement::Return(pest::ReturnStatement { expressions, span: span(from, to) })
}

fn int_constant(n: u64) -> untyped::Expression {
    untyped::Expression::IntConstant(BigNat::from_u64(n))
}

#[test]
fn return_forty_two() {
    let source = "def main() -> field { return 42; }";
    let ast = function(
        source,
        vec![],
        vec![pest::Type::Basic(pest::BasicType::Field(span(14, 19)))],
        vec![return_statement(vec![decimal_expression(source, 29, 31)], 22, 32)],
    );
    let expected: untyped::Module = untyped::Module {
        symbols: vec![Node::mock(untyped::SymbolDeclaration {
            id: source[4..8].to_string(),
            symbol: untyped::Symbol::Here(untyped::SymbolDefinition::Function(Node::mock(
                untyped::Function {
                    arguments: vec![],
                    statements: vec![Node::mock(untyped::Statement::Return(Node::mock(
                        untyped::ExpressionList { expressions: vec![Node::mock(int_constant(42))] },
                    )))],
                    signature: UnresolvedSignature::new()
                        .inputs(vec![])
                        .outputs(vec![Node::mock(UnresolvedType::FieldElement)]),
                },
            ))),
        })],
    };
    assert_eq!(untyped::Module::from(ast), expected);
}

#[test]
fn return_true() {
    let source = "def main() -> bool { return true; }";
    let ast = function(
        source,
        vec![],
        vec![pest::Type::Basic(pest::BasicType::Boolean(span(14, 18)))],
        vec![return_statement(vec![boolean(source, 28, 32)], 21, 33)],
    );
    let expected: untyped::Module = untyped::Module {
        symbols: vec![Node::mock(untyped::SymbolDeclaration {
            id: source[4..8].to_string(),
            symbol: untyped::Symbol::Here(untyped::SymbolDefinition::Function(Node::mock(
                untyped::Function {
                    arguments: vec![],
                    statements: vec![Node::mock(untyped::Statement::Return(Node::mock(
                        untyped::ExpressionList {
                            expressions: vec![Node::mock(untyped::Expression::BooleanConstant(true))],
                        },
                    )))],
                    signature: UnresolvedSignature::new()
                        .inputs(vec![])
                        .outputs(vec![Node::mock(UnresolvedType::Boolean)]),
                },
            ))),
        })],
    };
    assert_eq!(untyped::Module::from(ast), expected);
}

#[test]
fn arguments() {
    let source = "def main(private field a, bool b) -> field { return 42; }";
    let ast = function(
        source,
        vec![
            pest::Parameter {
                visibility: Some(pest::Visibility::Private),
                ty: pest::Type::Basic(pest::BasicType::Field(span(17, 22))),
                id: ident(source, 23, 24),
                span: span(9, 24),
            },
            pest::Parameter {
                visibility: None,
                ty: pest::Type::Basic(pest::BasicType::Boolean(span(26, 30))),
                id: ident(source, 31, 32),
                span: span(26, 32),
            },
        ],
        vec![pest::Type::Basic(pest::BasicType::Field(span(37, 42)))],
        vec![return_statement(vec![decimal_expression(source, 52, 54)], 45, 55)],
    );

    let expected: untyped::Module = untyped::Module {
        symbols: vec![Node::mock(untyped::SymbolDeclaration {
            id: source[4..8].to_string(),
            symbol: untyped::Symbol::Here(untyped::SymbolDefinition::Function(Node::mock(
                untyped::Function {
                    arguments: vec![
                        Node::mock(untyped::Parameter::private(Node::mock(untyped::Variable::new(
                            source[23..24].to_string(),
                            Node::mock(UnresolvedType::FieldElement),
                        )))),
                        Node::mock(untyped::Parameter::public(Node::mock(untyped::Variable::new(
                            source[31..32].to_string(),
                            Node::mock(UnresolvedType::Boolean),
                        )))),
                    ],
                    statements: vec![Node::mock(untyped::Statement::Return(Node::mock(
                        untyped::ExpressionList { expressions: vec![Node::mock(int_constant(42))] },
                    )))],
                    signature: UnresolvedSignature::new()
                        .inputs(vec![
                            Node::mock(UnresolvedType::FieldElement),
                            Node::mock(UnresolvedType::Boolean),
                        ])
                        .outputs(vec![Node::mock(UnresolvedType::FieldElement)]),
                },
            ))),
        })],
    };

    assert_eq!(untyped::Module::from(ast), expected);
}

/// The module of `def main(private {ty} a) { return; }` where the type of
/// `a` becomes `ty`.
fn wrap_type(ty: fn() -> UnresolvedType) -> untyped::Module {
    untyped::Module {
        symbols: vec![Node::mock(untyped::SymbolDeclaration {
            id: "main".to_string(),
            symbol: untyped::Symbol::Here(untyped::SymbolDefinition::Function(Node::mock(
                untyped::Function {
                    arguments: vec![Node::mock(untyped::Parameter::private(Node::mock(
                        untyped::Variable::new("a".to_string(), Node::mock(ty())),
                    )))],
                    statements: vec![Node::mock(untyped::Statement::Return(Node::mock(
                        untyped::ExpressionList { expressions: vec![] },
                    )))],
                    signature: UnresolvedSignature::new().inputs(vec![Node::mock(ty())]),
                },
            ))),
        })],
    }
}

/// The parse tree of `def main(private {ty} a) { return; }` where `ty`,
/// written from byte 17 on, is `len` bytes long.
fn type_source(ty: pest::Type, len: usize) -> pest::File {
    let a = 18 + len;
    let source = format!("def main(private {} a) {{ return; }}", " ".repeat(len));
    function(
        &source,
        vec![pest::Parameter {
            visibility: Some(pest::Visibility::Private),
            ty,
            id: pest::IdentifierExpression { value: "a".to_string(), span: span(a, a + 1) },
            span: span(9, a + 1),
        }],
        vec![],
        vec![return_statement(vec![], a + 4, a + 11)],
    )
}

fn array_type(basic: pest::BasicType, dimensions: Vec<pest::Expression>, len: usize) -> pest::Type {
    let mut dimensions = dimensions.into_iter();
    let outer = dimensions.next().unwrap();
    pest::Type::Array(pest::ArrayType {
        ty: pest::BasicOrStructOrTupleType::Basic(basic),
        outer_dimension: Box::new(outer),
        inner_dimensions: dimensions.collect(),
        span: span(17, 17 + len),
    })
}

#[test]
fn array() {
    let vectors: Vec<(&str, pest::Type, fn() -> UnresolvedType)> = vec![
        ("field", pest::Type::Basic(pest::BasicType::Field(span(17, 22))), || {
            UnresolvedType::FieldElement
        }),
        ("bool", pest::Type::Basic(pest::BasicType::Boolean(span(17, 21))), || {
            UnresolvedType::Boolean
        }),
        (
            "field[2]",
            array_type(
                pest::BasicType::Field(span(17, 22)),
                vec![decimal_expression("                       2", 23, 24)],
                8,
            ),
            || {
                UnresolvedType::Array(
                    Box::new(Node::mock(UnresolvedType::FieldElement)),
                    Node::mock(int_constant(2)),
                )
            },
        ),
        (
            "field[2][3]",
            array_type(
                pest::BasicType::Field(span(17, 22)),
                vec![
                    decimal_expression("                       2", 23, 24),
                    decimal_expression("                          3", 26, 27),
                ],
                11,
            ),
            || {
                UnresolvedType::Array(
                    Box::new(Node::mock(UnresolvedType::Array(
                        Box::new(Node::mock(UnresolvedType::FieldElement)),
                        Node::mock(int_constant(3)),
                    ))),
                    Node::mock(int_constant(2)),
                )
            },
        ),
        (
            "bool[2][3u32]",
            array_type(
                pest::BasicType::Boolean(span(17, 21)),
                vec![
                    decimal_expression("                      2", 22, 23),
                    pest::Expression::Literal(decimal(
                        "                         3u32",
                        25,
                        26,
                        Some(pest::DecimalSuffix::U32),
                        29,
                    )),
                ],
                13,
            ),
            || {
                UnresolvedType::Array(
                    Box::new(Node::mock(UnresolvedType::Array(
                        Box::new(Node::mock(UnresolvedType::Boolean)),
                        Node::mock(untyped::Expression::U32Constant(3u32)),
                    ))),
                    Node::mock(int_constant(2)),
                )
            },
        ),
    ];

    for (ty, ast, expected) in vectors {
        let ast = type_source(ast, ty.len());
        let expected = wrap_type(expected);
        assert_eq!(untyped::Module::from(ast), expected);
    }
}

/// The module of `def main() { return {expression}; }`.
fn wrap_expression(expression: untyped::Expression) -> untyped::Module {
    untyped::Module {
        symbols: vec![Node::mock(untyped::SymbolDeclaration {
            id: "main".to_string(),
            symbol: untyped::Symbol::Here(untyped::SymbolDefinition::Function(Node::mock(
                untyped::Function {
                    arguments: vec![],
                    statements: vec![Node::mock(untyped::Statement::Return(Node::mock(
                        untyped::ExpressionList { expressions: vec![Node::mock(expression)] },
                    )))],
                    signature: UnresolvedSignature::new(),
                },
            ))),
        })],
    }
}

/// The parse tree of `def main() { return {expression}; }`.
fn expression_source(expression: pest::Expression, len: usize) -> pest::File {
    let source = format!("def main() {{ return {}; }}", " ".repeat(len));
    function(&source, vec![], vec![], vec![return_statement(vec![expression], 13, 21 + len)])
}

/// The accesses of a postfix expression whose base is `a` at byte 20.
enum Step {
    Call(u64),
    Select(u64),
}

fn postfix(steps: Vec<Step>) -> (pest::Expression, usize) {
    let base = pest::Expression::Identifier(pest::IdentifierExpression {
        value: "a".to_string(),
        span: span(20, 21),
    });
    if steps.is_empty() {
        return (base, 1);
    }
    let mut at = 21;
    let mut accesses = vec![];
    for step in steps {
        let argument = pest::Expression::Literal(decimal(
            &format!("{}{}", " ".repeat(at + 1), match step { Step::Call(n) | Step::Select(n) => n }),
            at + 1,
            at + 2,
            None,
            at + 2,
        ));
        accesses.push(match step {
            Step::Call(_) => pest::Access::Call(pest::CallAccess {
                explicit_generics: None,
                arguments: pest::Arguments { expressions: vec![argument], span: span(at + 1, at + 2) },
                span: span(at, at + 3),
            }),
            Step::Select(_) => pest::Access::Select(pest::ArrayAccess {
                expression: pest::RangeOrExpression::Expression(argument),
                span: span(at, at + 3),
            }),
        });
        at += 3;
    }
    (
        pest::Expression::Postfix(pest::PostfixExpression {
            base: Box::new(base),
            accesses,
            span: span(20, at),
        }),
        at - 20,
    )
}

fn select(base: untyped::Expression, index: u64) -> untyped::Expression {
    untyped::Expression::Select(
        Box::new(Node::mock(base)),
        Box::new(untyped::RangeOrExpression::Expression(Node::mock(int_constant(index)))),
    )
}

fn call(base: untyped::Expression, argument: u64) -> untyped::Expression {
    untyped::Expression::FunctionCall(Box::new(Node::mock(base)), None, vec![Node::mock(int_constant(argument))])
}

fn a() -> untyped::Expression {
    untyped::Expression::Identifier("a".to_string())
}

#[test]
fn success() {
    // we basically accept `()?[]*` : an optional call at first, then only array accesses

    let vectors = vec![
        ("a", vec![], a()),
        ("a[3]", vec![Step::Select(3)], select(a(), 3)),
        ("a[3][4]", vec![Step::Select(3), Step::Select(4)], select(select(a(), 3), 4)),
        ("a(3)[4]", vec![Step::Call(3), Step::Select(4)], select(call(a(), 3), 4)),
        (
            "a(3)[4][5]",
            vec![Step::Call(3), Step::Select(4), Step::Select(5)],
            select(select(call(a(), 3), 4), 5),
        ),
    ];

    for (source, steps, expected) in vectors {
        let (expression, len) = postfix(steps);
        assert_eq!(len, source.len());
        let expected = wrap_expression(expected);
        let ast = expression_source(expression, len);
        assert_eq!(untyped::Module::from(ast), expected);
    }
}

#[test]
fn call_array_element() {
    // a call after an array access should be accepted
    let source = "def main() { return a[2](3); }";
    let (expression, len) = postfix(vec![Step::Select(2), Step::Call(3)]);
    assert_eq!(&source[20..20 + len], "a[2](3)");
    let ast = expression_source(expression, len);
    assert_eq!(untyped::Module::from(ast), wrap_expression(call(select(a(), 2), 3)));
}

#[test]
fn call_call_result() {
    // a call after a call should be accepted
    let source = "def main() { return a(2)(3); }";
    let (expression, len) = postfix(vec![Step::Call(2), Step::Call(3)]);
    assert_eq!(&source[20..20 + len], "a(2)(3)");
    let ast = expression_source(expression, len);
    assert_eq!(untyped::Module::from(ast), wrap_expression(call(call(a(), 2), 3)));
}

fn empty_span() -> Span {
    Span { start: Position { line: 1, col: 1 }, end: Position { line: 1, col: 1 } }
}

fn named(name: &str) -> pest::IdentifierExpression {
    pest::IdentifierExpression { value: String::from(name), span: empty_span() }
}

fn call_foo() -> pest::Expression {
    pest::Expression::Postfix(pest::PostfixExpression {
        base: Box::new(pest::Expression::Identifier(named("foo"))),
        accesses: vec![pest::Access::Call(pest::CallAccess {
            explicit_generics: None,
            arguments: pest::Arguments { expressions: vec![], span: empty_span() },
            span: empty_span(),
        })],
        span: empty_span(),
    })
}

#[test]
fn declarations() {
    let span = empty_span();

    // For different definitions, we generate declarations
    // Case 1: `id = expr` where `expr` is not a function call
    // This is a simple assignment, doesn't implicitely declare a variable
    // A `Definition` is generated and no `Declaration`s

    let definition = pest::DefinitionStatement {
        lhs: vec![pest::TypedIdentifierOrAssignee::Assignee(pest::Assignee {
            id: named("a"),
            accesses: vec![],
            span,
        })],
        expression: pest::Expression::Literal(pest::LiteralExpression::DecimalLiteral(
            pest::DecimalLiteralExpression::new(
                pest::DecimalNumber::new("1".to_string(), Span {
                    start: Position { line: 1, col: 1 },
                    end: Position { line: 1, col: 2 },
                })
                .unwrap(),
                None,
                span,
            )
            .unwrap(),
        )),
        span,
    };

    let statements: Vec<untyped::StatementNode> = statements_from_definition(definition);

    assert_eq!(statements.len(), 1);
    match &statements[0].value {
        untyped::Statement::Definition(..) => {}
        s => {
            panic!("should be a Definition, found {:?}", s);
        }
    };

    // Case 2: `id = expr` where `expr` is a function call
    // A MultiDef is generated

    let definition = pest::DefinitionStatement {
        lhs: vec![pest::TypedIdentifierOrAssignee::Assignee(pest::Assignee {
            id: named("a"),
            accesses: vec![],
            span,
        })],
        expression: call_foo(),
        span,
    };

    let statements: Vec<untyped::StatementNode> = statements_from_definition(definition);

    assert_eq!(statements.len(), 1);
    match &statements[0].value {
        untyped::Statement::MultipleDefinition(..) => {}
        s => {
            panic!("should be a Definition, found {:?}", s);
        }
    };
    // Case 3: `ids = expr` where `expr` is a function call
    // This implicitely declares all variables which are type annotated

    // `field a, b = foo()`

    let definition = pest::DefinitionStatement {
        lhs: vec![
            pest::TypedIdentifierOrAssignee::TypedIdentifier(pest::TypedIdentifier {
                ty: pest::Type::Basic(pest::BasicType::Field(span)),
                identifier: named("a"),
                span,
            }),
            pest::TypedIdentifierOrAssignee::Assignee(pest::Assignee {
                id: named("b"),
                accesses: vec![],
                span,
            }),
        ],
        expression: call_foo(),
        span,
    };

    let statements: Vec<untyped::StatementNode> = statements_from_definition(definition);

    assert_eq!(statements.len(), 2);
    match &statements[1].value {
        untyped::Statement::MultipleDefinition(..) => {}
        s => {
            panic!("should be a Definition, found {:?}", s);
        }
    };
}
