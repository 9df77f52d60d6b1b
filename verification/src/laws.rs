//! Properties of the conversion as a whole.
use vstd::prelude::*;
use crate::correspondence::{
    converts_array_dimensions, converts_array_element, converts_declaration, converts_definition,
    converts_expression, converts_postfix, converts_statement, converts_statements, typed_count,
    converts_type, converts_variable, statement_count,
};
use crate::parse_tree as pt;
use crate::symbols::{
    converts_function, converts_module, converts_parameter, converts_symbol_declarations, symbol_count,
};
use crate::untyped as ut;
use crate::untyped::spans;

verus! {

/// How many arrays are nested at the top of a type.
pub open spec fn array_depth(t: ut::UnresolvedType) -> nat
    decreases t,
{
    match t {
        ut::UnresolvedType::Array(inner, _) => 1 + array_depth(inner.value),
        _ => 0,
    }
}

/// How many statements a list of statements becomes in all.
pub open spec fn total_statement_count(ss: Seq<pt::Statement>) -> nat
    decreases ss.len(),
{
    if ss.len() == 0 {
        0
    } else {
        total_statement_count(ss.drop_last()) + statement_count(ss.last())
    }
}

/// How many symbols a list of declarations declares in all.
pub open spec fn total_symbol_count(ds: Seq<pt::SymbolDeclaration>) -> nat
    decreases ds.len(),
{
    if ds.len() == 0 {
        0
    } else {
        total_symbol_count(ds.drop_last()) + symbol_count(ds.last())
    }
}

/// `a != b` becomes the negation of what `a == b` becomes, at the same
/// position.
pub proof fn lemma_not_equal_is_negated_equality(
    b: pt::BinaryExpression,
    n: ut::ExpressionNode,
)
    requires
        b.op == pt::BinaryOperator::NotEq,
        converts_expression(pt::Expression::Binary(b), n),
    ensures
        n.value matches ut::Expression::Not(x) && spans(*x, b.span) && converts_expression(
            pt::Expression::Binary(pt::BinaryExpression { op: pt::BinaryOperator::Eq, ..b }),
            *x,
        ),
{
    let eq = pt::BinaryExpression { op: pt::BinaryOperator::Eq, ..b };
    if let ut::Expression::Not(x) = n.value {
        if let ut::Expression::Eq(l, r) = x.value {
            assert(crate::correspondence::binary_operands(eq.op, x.value) == Some((*l, *r)));
        }
    }
}

/// From its `k`-th dimension inwards, an array type is as many nested
/// arrays as it has dimensions from the `k`-th on.
proof fn lemma_array_dimensions_depth(a: pt::ArrayType, k: nat, v: ut::UnresolvedType)
    requires
        converts_array_dimensions(a, k, v),
    ensures
        array_depth(v) == a.inner_dimensions@.len() + 1 - k,
    decreases a.inner_dimensions@.len() + 1 - k,
{
    if let ut::UnresolvedType::Array(inner, _) = v {
        if k < a.inner_dimensions@.len() {
            lemma_array_dimensions_depth(a, k + 1, inner.value);
        } else {
            assert(converts_array_element(a.ty, *inner));
            assert(array_depth(inner.value) == 0);
        }
    }
}

/// An array type with `d` dimensions becomes `d` nested arrays, around its
/// element type, which is no array.
pub proof fn lemma_array_type_depth(a: pt::ArrayType, n: ut::UnresolvedTypeNode)
    requires
        converts_type(pt::Type::Array(a), n),
    ensures
        array_depth(n.value) == a.inner_dimensions@.len() + 1,
{
    lemma_array_dimensions_depth(a, 0, n.value);
}

/// Statements become as many statements as each of them counts for, added
/// up: one for a return, an assertion or a loop, and for a definition one
/// more than the variables it declares.
pub proof fn lemma_statements_length(ss: Seq<pt::Statement>, out: Seq<ut::StatementNode>)
    requires
        converts_statements(ss, out),
    ensures
        out.len() == total_statement_count(ss),
    decreases ss.len(),
{
    if ss.len() > 0 {
        let k = statement_count(ss[ss.len() - 1]);
        assert(ss.subrange(0, ss.len() - 1) =~= ss.drop_last());
        lemma_statements_length(ss.drop_last(), out.subrange(0, out.len() - k));
    }
}

/// A file becomes a module with as many symbols as its declarations
/// declare: one per symbol imported from another module, and one for each
/// other declaration.
pub proof fn lemma_module_length(f: pt::File, m: ut::Module)
    requires
        converts_module(f, m),
    ensures
        m.symbols@.len() == total_symbol_count(f.declarations@),
{
    lemma_symbols_length(f.declarations@, m.symbols@);
}

/// Declarations declare as many symbols as each of them counts for, added
/// up.
pub proof fn lemma_symbols_length(ds: Seq<pt::SymbolDeclaration>, out: Seq<ut::SymbolDeclarationNode>)
    requires
        converts_symbol_declarations(ds, out),
    ensures
        out.len() == total_symbol_count(ds),
    decreases ds.len(),
{
    if ds.len() > 0 {
        let k = symbol_count(ds.last());
        lemma_symbols_length(ds.drop_last(), out.subrange(0, out.len() - k));
    }
}

/// A ternary expression becomes what an if-else expression with the same
/// condition and branches, and no statements in them, becomes, but for its
/// kind.
pub proof fn lemma_ternary_is_if_else_without_statements(
    t: pt::TernaryExpression,
    f: pt::IfElseExpression,
    n: ut::ExpressionNode,
)
    requires
        f.condition == t.condition,
        f.consequence == t.consequence,
        f.alternative == t.alternative,
        f.span == t.span,
        f.consequence_statements@.len() == 0,
        f.alternative_statements@.len() == 0,
        converts_expression(pt::Expression::Ternary(t), n),
    ensures
        n.value matches ut::Expression::Conditional(c) && c.kind == ut::ConditionalKind::Ternary
            && converts_expression(
            pt::Expression::IfElse(f),
            ut::Node {
                value: ut::Expression::Conditional(
                    Box::new(ut::ConditionalExpression { kind: ut::ConditionalKind::IfElse, ..*c }),
                ),
                ..n
            },
        ),
{
    if let ut::Expression::Conditional(c) = n.value {
        assert(converts_statements(f.consequence_statements@, c.consequence_statements@));
        assert(converts_statements(f.alternative_statements@, c.alternative_statements@));
    }
}

/// A postfix expression without accesses becomes what its base becomes.
pub proof fn lemma_postfix_without_accesses(p: pt::PostfixExpression, n: ut::ExpressionNode)
    requires
        p.accesses@.len() == 0,
    ensures
        converts_expression(pt::Expression::Postfix(p), n) <==> converts_expression(*p.base, n),
{
    assert(converts_expression(pt::Expression::Postfix(p), n) == converts_postfix(p, 0, n));
}

/// The inputs of the signature of a function are the types of its
/// parameters, as are the types of its arguments, in the same order.
pub proof fn lemma_signature_inputs_are_parameter_types(
    f: pt::FunctionDefinition,
    n: ut::FunctionNode,
)
    requires
        converts_function(f, n),
    ensures
        n.value.signature.inputs@.len() == n.value.arguments@.len(),
        forall|i: int|
            0 <= i < f.parameters@.len() ==> converts_type(
                f.parameters@[i].ty,
                #[trigger] n.value.signature.inputs@[i],
            ) && converts_type(f.parameters@[i].ty, n.value.arguments@[i].value.id.value._type),
{
    assert forall|i: int| 0 <= i < f.parameters@.len() implies converts_type(
        f.parameters@[i].ty,
        #[trigger] n.value.signature.inputs@[i],
    ) && converts_type(f.parameters@[i].ty, n.value.arguments@[i].value.id.value._type) by {
        assert(converts_parameter(f.parameters@[i], n.value.arguments@[i]));
        assert(converts_variable(
            f.parameters@[i].id,
            f.parameters@[i].ty,
            n.value.arguments@[i].value.id,
        ));
    }
}

/// Whether an expression is a function call: a postfix expression whose
/// last access is a call, or, without accesses, whose base is one.
pub open spec fn is_call(e: pt::Expression) -> bool
    decreases e,
{
    match e {
        pt::Expression::Postfix(p) => if p.accesses@.len() == 0 {
            is_call(*p.base)
        } else {
            p.accesses@.last() is Call
        },
        _ => false,
    }
}

/// An expression becomes a function call exactly when it is one.
pub proof fn lemma_call_is_kept(e: pt::Expression, n: ut::ExpressionNode)
    requires
        converts_expression(e, n),
    ensures
        n.value is FunctionCall <==> is_call(e),
    decreases e,
{
    match e {
        pt::Expression::Postfix(p) => {
            let k = p.accesses@.len();
            if k == 0 {
                assert(converts_postfix(p, 0, n));
                lemma_call_is_kept(*p.base, n);
            } else {
                assert(converts_postfix(p, k, n));
                assert(p.accesses@.last() == p.accesses@[k - 1]);
            }
        },
        pt::Expression::Binary(b) => {
            if b.op != pt::BinaryOperator::NotEq {
                assert(crate::correspondence::binary_operands(b.op, n.value) is Some);
            }
        },
        pt::Expression::Literal(l) => {
            match l {
                pt::LiteralExpression::DecimalLiteral(d) => {
                    assert(crate::correspondence::is_decimal_constant(
                        d.spec_suffix(),
                        crate::number::decimal_value(d.spec_number().spec_digits()),
                        n.value,
                    ));
                },
                pt::LiteralExpression::HexLiteral(h) => {
                    assert(crate::correspondence::is_hex_constant(h.spec_value(), n.value));
                },
                _ => {},
            }
        },
        _ => {},
    }
}

/// What a definition statement becomes, by its targets. With one target
/// that is not typed: one statement, a definition, or a multiple
/// definition when the expression is a function call. With one typed
/// target: its declaration, then that statement. With any other number of
/// targets: one declaration per typed target, then one multiple definition.
pub proof fn lemma_definition_statements(d: pt::DefinitionStatement, out: Seq<ut::StatementNode>)
    requires
        converts_statement(pt::Statement::Definition(d), out),
    ensures
        d.lhs@.len() == 1 && d.lhs@[0] is Assignee ==> out.len() == 1 && if is_call(d.expression) {
            out[0].value is MultipleDefinition
        } else {
            out[0].value is Definition
        },
        d.lhs@.len() == 1 && d.lhs@[0] is TypedIdentifier ==> out.len() == 2
            && out[0].value is Declaration && if is_call(d.expression) {
            out[1].value is MultipleDefinition
        } else {
            out[1].value is Definition
        },
        d.lhs@.len() != 1 ==> out.len() == typed_count(d.lhs@) + 1 && (forall|j: int|
            0 <= j < out.len() - 1 ==> #[trigger] out[j].value is Declaration)
            && out[out.len() - 1].value is MultipleDefinition,
{
    assert(converts_definition(d, out));
    let lhs = d.lhs@;
    if lhs.len() == 1 {
        let last = out[out.len() - 1];
        match last.value {
            ut::Statement::Definition(_, x) => lemma_call_is_kept(d.expression, x),
            ut::Statement::MultipleDefinition(_, x) => lemma_call_is_kept(d.expression, x),
            _ => {},
        }
        if lhs[0] is TypedIdentifier {
            assert(converts_declaration(lhs[0]->TypedIdentifier_0, d.span, out[0]));
        }
    } else {
        assert forall|j: int| 0 <= j < out.len() - 1 implies #[trigger] out[j].value is Declaration by {
            let m = lemma_typed_target_at(lhs, j);
            assert(lhs[m] is TypedIdentifier);
            assert(converts_declaration(
                lhs[m]->TypedIdentifier_0,
                lhs[m]->TypedIdentifier_0.span,
                out[typed_count(lhs.take(m)) as int],
            ));
        }
    }
}

/// Below the count of typed targets, every number is the count of typed
/// targets before some typed target.
proof fn lemma_typed_target_at(lhs: Seq<pt::TypedIdentifierOrAssignee>, j: int) -> (m: int)
    requires
        0 <= j < typed_count(lhs),
    ensures
        0 <= m < lhs.len(),
        lhs[m] is TypedIdentifier,
        typed_count(lhs.take(m)) == j,
    decreases lhs.len(),
{
    let init = lhs.drop_last();
    assert(lhs.take(lhs.len() - 1) =~= init);
    if j < typed_count(init) {
        let m = lemma_typed_target_at(init, j);
        assert(init.take(m) =~= lhs.take(m));
        m
    } else {
        (lhs.len() - 1) as int
    }
}

} // verus!
