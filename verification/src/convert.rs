//! Building the untyped tree of expressions, statements and types from the
//! parse tree; each function returns exactly what the relations of
//! `correspondence` give for its input.
use vstd::prelude::*;
use vstd::string::StrSliceExecFns;
use crate::correspondence::{
    binary_operands, converts_array_dimensions, converts_array_element, converts_assignee,
    converts_basic_type, converts_bound, converts_declaration, converts_definition,
    converts_expression, converts_expressions, converts_generic_value, converts_generics,
    converts_identifier, converts_identifier_assignee, converts_literal, converts_postfix,
    converts_range_or_expression, converts_single_definition, converts_spread_or_expression,
    converts_statement, converts_statements, converts_struct_type, converts_target, converts_type,
    converts_types, converts_variable, statement_count, typed_count,
};
use crate::number::{parse_big_decimal, parse_u64};
use crate::parse_tree as pt;
use crate::parse_tree::{DecimalSuffix, is_boolean_text};
use crate::untyped as ut;
use crate::untyped::{Node, spans};

verus! {

/// The constant `true` or `false`.
pub fn boolean_literal_from(c: &pt::BooleanLiteralExpression) -> (n: ut::ExpressionNode)
    ensures
        converts_literal(pt::LiteralExpression::BooleanLiteral(*c), n),
{
    let text = c.value();
    let is_true = text.unicode_len() == 4;
    proof {
        assert(is_boolean_text(text@));
        assert(seq!['t', 'r', 'u', 'e'].len() == 4);
        assert(seq!['f', 'a', 'l', 's', 'e'].len() == 5);
    }
    Node::spanned(ut::Expression::BooleanConstant(is_true), c.span())
}

/// The constant a decimal literal denotes: a field element or a number of
/// any size, or an unsigned integer of the type its suffix names.
pub fn decimal_literal_from(d: &pt::DecimalLiteralExpression) -> (n: ut::ExpressionNode)
    ensures
        converts_literal(pt::LiteralExpression::DecimalLiteral(*d), n),
{
    let number = d.number();
    let digits = number.digits();
    let value = match d.suffix() {
        None => ut::Expression::IntConstant(parse_big_decimal(digits)),
        Some(DecimalSuffix::Field) => ut::Expression::FieldConstant(parse_big_decimal(digits)),
        Some(suffix) => {
            let v = parse_u64(digits, 10).unwrap();
            match suffix {
                DecimalSuffix::U8 => ut::Expression::U8Constant(v as u8),
                DecimalSuffix::U16 => ut::Expression::U16Constant(v as u16),
                DecimalSuffix::U32 => ut::Expression::U32Constant(v as u32),
                _ => ut::Expression::U64Constant(v),
            }
        },
    };
    Node::spanned(value, d.span())
}

/// The constant a hexadecimal literal denotes, of the unsigned type its
/// variant names.
pub fn hex_literal_from(h: &pt::HexLiteralExpression) -> (n: ut::ExpressionNode)
    ensures
        converts_literal(pt::LiteralExpression::HexLiteral(*h), n),
{
    let value = match h.value() {
        pt::HexNumberExpression::U8(x) => ut::Expression::U8Constant(
            parse_u64(x.value.as_str(), 16).unwrap() as u8,
        ),
        pt::HexNumberExpression::U16(x) => ut::Expression::U16Constant(
            parse_u64(x.value.as_str(), 16).unwrap() as u16,
        ),
        pt::HexNumberExpression::U32(x) => ut::Expression::U32Constant(
            parse_u64(x.value.as_str(), 16).unwrap() as u32,
        ),
        pt::HexNumberExpression::U64(x) => ut::Expression::U64Constant(
            parse_u64(x.value.as_str(), 16).unwrap(),
        ),
    };
    Node::spanned(value, h.span())
}

/// The constant a literal denotes.
pub fn literal_from(l: &pt::LiteralExpression) -> (n: ut::ExpressionNode)
    ensures
        converts_literal(*l, n),
{
    match l {
        pt::LiteralExpression::BooleanLiteral(c) => boolean_literal_from(c),
        pt::LiteralExpression::DecimalLiteral(d) => decimal_literal_from(d),
        pt::LiteralExpression::HexLiteral(h) => hex_literal_from(h),
    }
}

/// The expression naming an identifier.
pub fn identifier_from(i: &pt::IdentifierExpression) -> (n: ut::ExpressionNode)
    ensures
        converts_identifier(*i, n),
{
    Node::spanned(ut::Expression::Identifier(i.value.clone()), i.span)
}

/// The assignee naming an identifier.
pub fn identifier_assignee_from(i: &pt::IdentifierExpression) -> (n: ut::AssigneeNode)
    ensures
        converts_identifier_assignee(*i, n),
{
    Node::spanned(ut::Assignee::Identifier(i.value.clone()), i.span)
}

/// Explicit generic arguments, where they are given.
pub fn generics_from(g: &Option<pt::ExplicitGenerics>) -> (r: Option<Vec<Option<ut::ExpressionNode>>>)
    ensures
        converts_generics(*g, r),
{
    match g {
        None => None,
        Some(eg) => {
            let mut out: Vec<Option<ut::ExpressionNode>> = Vec::new();
            let mut i: usize = 0;
            while i < eg.values.len()
                invariant
                    i <= eg.values@.len(),
                    out@.len() == i,
                    forall|j: int|
                        0 <= j < i ==> #[trigger] converts_generic_value(eg.values@[j], out@[j]),
                decreases eg.values@.len() - i,
            {
                let v = match &eg.values[i] {
                    pt::ConstantGenericValue::Underscore => None,
                    pt::ConstantGenericValue::Value(l) => Some(literal_from(l)),
                    pt::ConstantGenericValue::Identifier(id) => Some(identifier_from(id)),
                };
                out.push(v);
                i += 1;
            }
            Some(out)
        },
    }
}

pub fn basic_type_from(b: &pt::BasicType) -> (n: ut::UnresolvedTypeNode)
    ensures
        converts_basic_type(*b, n),
{
    match b {
        pt::BasicType::Field(s) => Node::spanned(ut::UnresolvedType::FieldElement, *s),
        pt::BasicType::Boolean(s) => Node::spanned(ut::UnresolvedType::Boolean, *s),
        pt::BasicType::U8(s) => Node::spanned(ut::UnresolvedType::Uint(8), *s),
        pt::BasicType::U16(s) => Node::spanned(ut::UnresolvedType::Uint(16), *s),
        pt::BasicType::U32(s) => Node::spanned(ut::UnresolvedType::Uint(32), *s),
        pt::BasicType::U64(s) => Node::spanned(ut::UnresolvedType::Uint(64), *s),
    }
}

pub fn struct_type_from(s: &pt::StructType) -> (n: ut::UnresolvedTypeNode)
    ensures
        converts_struct_type(*s, n),
{
    let g = generics_from(&s.explicit_generics);
    Node::spanned(ut::UnresolvedType::User(s.id.value.clone(), g), s.span)
}

/// The untyped operation for a binary operator other than `!=`.
fn binary_expression(op: pt::BinaryOperator, l: ut::ExpressionNode, r: ut::ExpressionNode) -> (v:
    ut::Expression)
    requires
        op != pt::BinaryOperator::NotEq,
    ensures
        binary_operands(op, v) == Some((l, r)),
{
    let (l, r) = (Box::new(l), Box::new(r));
    match op {
        pt::BinaryOperator::Add => ut::Expression::Add(l, r),
        pt::BinaryOperator::Sub => ut::Expression::Sub(l, r),
        pt::BinaryOperator::Mul => ut::Expression::Mult(l, r),
        pt::BinaryOperator::Div => ut::Expression::Div(l, r),
        pt::BinaryOperator::Rem => ut::Expression::Rem(l, r),
        pt::BinaryOperator::Eq => ut::Expression::Eq(l, r),
        pt::BinaryOperator::Lt => ut::Expression::Lt(l, r),
        pt::BinaryOperator::Lte => ut::Expression::Le(l, r),
        pt::BinaryOperator::Gt => ut::Expression::Gt(l, r),
        pt::BinaryOperator::Gte => ut::Expression::Ge(l, r),
        pt::BinaryOperator::And => ut::Expression::And(l, r),
        pt::BinaryOperator::Or => ut::Expression::Or(l, r),
        pt::BinaryOperator::Pow => ut::Expression::Pow(l, r),
        pt::BinaryOperator::BitXor => ut::Expression::BitXor(l, r),
        pt::BinaryOperator::LeftShift => ut::Expression::LeftShift(l, r),
        pt::BinaryOperator::RightShift => ut::Expression::RightShift(l, r),
        pt::BinaryOperator::BitAnd => ut::Expression::BitAnd(l, r),
        _ => ut::Expression::BitOr(l, r),
    }
}

/// A binary operation; `a != b` becomes `!(a == b)`.
pub fn binary_expression_from(b: &pt::BinaryExpression) -> (n: ut::ExpressionNode)
    ensures
        converts_expression(pt::Expression::Binary(*b), n),
    decreases b, 0nat,
{
    let l = expression_from(&b.left);
    let r = expression_from(&b.right);
    if b.op == pt::BinaryOperator::NotEq {
        let eq = Node::spanned(ut::Expression::Eq(Box::new(l), Box::new(r)), b.span);
        Node::spanned(ut::Expression::Not(Box::new(eq)), b.span)
    } else {
        Node::spanned(binary_expression(b.op, l, r), b.span)
    }
}

/// A conditional expression with no statements in its branches.
pub fn ternary_expression_from(t: &pt::TernaryExpression) -> (n: ut::ExpressionNode)
    ensures
        converts_expression(pt::Expression::Ternary(*t), n),
    decreases t, 0nat,
{
    let c = ut::ConditionalExpression {
        condition: Box::new(expression_from(&t.condition)),
        consequence_statements: Vec::new(),
        consequence: Box::new(expression_from(&t.consequence)),
        alternative_statements: Vec::new(),
        alternative: Box::new(expression_from(&t.alternative)),
        kind: ut::ConditionalKind::Ternary,
    };
    Node::spanned(ut::Expression::Conditional(Box::new(c)), t.span)
}

/// A conditional expression with the statements of its branches.
pub fn if_else_expression_from(f: &pt::IfElseExpression) -> (n: ut::ExpressionNode)
    ensures
        converts_expression(pt::Expression::IfElse(*f), n),
    decreases f, 0nat,
{
    let c = ut::ConditionalExpression {
        condition: Box::new(expression_from(&f.condition)),
        consequence_statements: statements_from(&f.consequence_statements),
        consequence: Box::new(expression_from(&f.consequence)),
        alternative_statements: statements_from(&f.alternative_statements),
        alternative: Box::new(expression_from(&f.alternative)),
        kind: ut::ConditionalKind::IfElse,
    };
    Node::spanned(ut::Expression::Conditional(Box::new(c)), f.span)
}

pub fn inline_array_from(a: &pt::InlineArrayExpression) -> (n: ut::ExpressionNode)
    ensures
        converts_expression(pt::Expression::InlineArray(*a), n),
    decreases a, 0nat,
{
    let v = spread_or_expressions_from(&a.expressions);
    assert(forall|i: int|
        0 <= i < v@.len() ==> converts_spread_or_expression(a.expressions@[i], v@[i]));
    Node::spanned(ut::Expression::InlineArray(v), a.span)
}

pub fn inline_tuple_from(t: &pt::InlineTupleExpression) -> (n: ut::ExpressionNode)
    ensures
        converts_expression(pt::Expression::InlineTuple(*t), n),
    decreases t, 0nat,
{
    let v = expressions_from(&t.elements);
    Node::spanned(ut::Expression::InlineTuple(v), t.span)
}

pub fn inline_struct_from(s: &pt::InlineStructExpression) -> (n: ut::ExpressionNode)
    ensures
        converts_expression(pt::Expression::InlineStruct(*s), n),
    decreases s, 0nat,
{
    let ms = members_from(&s.members);
    assert(forall|i: int|
        0 <= i < ms@.len() ==> ms@[i].0@ == s.members@[i].id.value@ && converts_expression(
            s.members@[i].expression,
            ms@[i].1,
        ));
    Node::spanned(ut::Expression::InlineStruct(s.ty.value.clone(), ms), s.span)
}

pub fn array_initializer_from(a: &pt::ArrayInitializerExpression) -> (n: ut::ExpressionNode)
    ensures
        converts_expression(pt::Expression::ArrayInitializer(*a), n),
    decreases a, 0nat,
{
    let value = expression_from(&a.value);
    let count = expression_from(&a.count);
    Node::spanned(ut::Expression::ArrayInitializer(Box::new(value), Box::new(count)), a.span)
}

pub fn unary_expression_from(u: &pt::UnaryExpression) -> (n: ut::ExpressionNode)
    ensures
        converts_expression(pt::Expression::Unary(*u), n),
    decreases u, 0nat,
{
    let x = Box::new(expression_from(&u.expression));
    let v = match u.op {
        pt::UnaryOperator::Not => ut::Expression::Not(x),
        pt::UnaryOperator::Neg => ut::Expression::Neg(x),
        pt::UnaryOperator::Pos => ut::Expression::Pos(x),
    };
    Node::spanned(v, u.span)
}

/// The untyped expression of an expression.
pub fn expression_from(e: &pt::Expression) -> (n: ut::ExpressionNode)
    ensures
        converts_expression(*e, n),
    decreases e, 0nat,
{
    match e {
        pt::Expression::Binary(b) => binary_expression_from(b),
        pt::Expression::Ternary(t) => ternary_expression_from(t),
        pt::Expression::IfElse(f) => if_else_expression_from(f),
        pt::Expression::Literal(l) => literal_from(l),
        pt::Expression::Identifier(i) => identifier_from(i),
        pt::Expression::Postfix(p) => postfix_from(p),
        pt::Expression::InlineArray(a) => inline_array_from(a),
        pt::Expression::InlineTuple(t) => inline_tuple_from(t),
        pt::Expression::InlineStruct(s) => inline_struct_from(s),
        pt::Expression::ArrayInitializer(a) => array_initializer_from(a),
        pt::Expression::Unary(u) => unary_expression_from(u),
    }
}

/// The untyped expressions of a list of expressions, in order.
pub fn expressions_from(es: &Vec<pt::Expression>) -> (r: Vec<ut::ExpressionNode>)
    ensures
        converts_expressions(es@, r@),
    decreases es, 0nat,
{
    let mut out: Vec<ut::ExpressionNode> = Vec::new();
    let mut i: usize = 0;
    while i < es.len()
        invariant
            i <= es@.len(),
            out@.len() == i,
            forall|j: int| 0 <= j < i ==> #[trigger] converts_expression(es@[j], out@[j]),
        decreases es@.len() - i,
    {
        proof {
            assert(decreases_to!(*es => es@));
            assert(decreases_to!(es@ => es@[i as int]));
        }
        let x = expression_from(&es[i]);
        out.push(x);
        i += 1;
    }
    assert(forall|j: int| 0 <= j < es@.len() ==> converts_expression(es@[j], out@[j]));
    out
}

fn spread_or_expressions_from(es: &Vec<pt::SpreadOrExpression>) -> (r: Vec<ut::SpreadOrExpression>)
    ensures
        r@.len() == es@.len(),
        forall|j: int| 0 <= j < r@.len() ==> #[trigger] converts_spread_or_expression(es@[j], r@[j]),
    decreases es, 0nat,
{
    let mut out: Vec<ut::SpreadOrExpression> = Vec::new();
    let mut i: usize = 0;
    while i < es.len()
        invariant
            i <= es@.len(),
            out@.len() == i,
            forall|j: int| 0 <= j < i ==> #[trigger] converts_spread_or_expression(es@[j], out@[j]),
        decreases es@.len() - i,
    {
        proof {
            assert(decreases_to!(*es => es@));
            assert(decreases_to!(es@ => es@[i as int]));
        }
        let x = spread_or_expression_from(&es[i]);
        out.push(x);
        i += 1;
    }
    out
}

fn members_from(ms: &Vec<pt::InlineStructMember>) -> (r: Vec<(ut::Identifier, ut::ExpressionNode)>)
    ensures
        r@.len() == ms@.len(),
        forall|j: int|
            #![trigger r@[j]]
            0 <= j < r@.len() ==> r@[j].0@ == ms@[j].id.value@ && converts_expression(
                ms@[j].expression,
                r@[j].1,
            ),
    decreases ms, 0nat,
{
    let mut out: Vec<(ut::Identifier, ut::ExpressionNode)> = Vec::new();
    let mut i: usize = 0;
    while i < ms.len()
        invariant
            i <= ms@.len(),
            out@.len() == i,
            forall|j: int|
                #![trigger out@[j]]
                0 <= j < i ==> out@[j].0@ == ms@[j].id.value@ && converts_expression(
                    ms@[j].expression,
                    out@[j].1,
                ),
        decreases ms@.len() - i,
    {
        proof {
            assert(decreases_to!(*ms => ms@));
            assert(decreases_to!(ms@ => ms@[i as int]));
            assert(decreases_to!(ms@[i as int] => ms@[i as int].expression));
        }
        let m = &ms[i];
        let x = expression_from(&m.expression);
        out.push((m.id.value.clone(), x));
        i += 1;
    }
    out
}

/// The base of a postfix expression with its accesses applied, from left to
/// right.
pub fn postfix_from(p: &pt::PostfixExpression) -> (n: ut::ExpressionNode)
    ensures
        converts_postfix(*p, p.accesses@.len(), n),
    decreases p, 0nat,
{
    let mut acc = expression_from(&p.base);
    let mut i: usize = 0;
    while i < p.accesses.len()
        invariant
            i <= p.accesses@.len(),
            converts_postfix(*p, i as nat, acc),
        decreases p.accesses@.len() - i,
    {
        proof {
            assert(decreases_to!(*p => p.accesses));
            assert(decreases_to!(p.accesses => p.accesses@));
            assert(decreases_to!(p.accesses@ => p.accesses@[i as int]));
        }
        let next = match &p.accesses[i] {
            pt::Access::Call(c) => {
                let g = generics_from(&c.explicit_generics);
                proof {
                    assert(decreases_to!(p.accesses@[i as int] => *c));
                    assert(decreases_to!(*c => c.arguments));
                    assert(decreases_to!(c.arguments => c.arguments.expressions));
                }
                let args = expressions_from(&c.arguments.expressions);
                Node::spanned(ut::Expression::FunctionCall(Box::new(acc), g, args), c.span)
            },
            pt::Access::Select(s) => {
                proof {
                    assert(decreases_to!(p.accesses@[i as int] => *s));
                    assert(decreases_to!(*s => s.expression));
                }
                let r = range_or_expression_from(&s.expression);
                Node::spanned(ut::Expression::Select(Box::new(acc), Box::new(r)), s.span)
            },
            pt::Access::Dot(d) => {
                let v = match d.inner() {
                    pt::IdentifierOrDecimal::Identifier(id) => ut::Expression::Member(
                        Box::new(acc),
                        Box::new(id.value.clone()),
                    ),
                    pt::IdentifierOrDecimal::Decimal(number) => {
                        let index = parse_u64(number.digits(), 10).unwrap();
                        ut::Expression::Element(Box::new(acc), index as u32)
                    },
                };
                Node::spanned(v, d.span())
            },
        };
        acc = next;
        i += 1;
    }
    acc
}

pub fn range_or_expression_from(r: &pt::RangeOrExpression) -> (out: ut::RangeOrExpression)
    ensures
        converts_range_or_expression(*r, out),
    decreases r, 0nat,
{
    match r {
        pt::RangeOrExpression::Expression(e) => ut::RangeOrExpression::Expression(expression_from(e)),
        pt::RangeOrExpression::Range(g) => ut::RangeOrExpression::Range(range_from(g)),
    }
}

/// A range, with each bound that it gives.
pub fn range_from(g: &pt::Range) -> (n: ut::RangeNode)
    ensures
        converts_range_or_expression(
            pt::RangeOrExpression::Range(*g),
            ut::RangeOrExpression::Range(n),
        ),
    decreases g, 0nat,
{
    let from = bound_from(&g.from);
    let to = bound_from(&g.to);
    Node::spanned(ut::Range { from, to }, g.span)
}

fn bound_from(b: &Option<pt::Expression>) -> (out: Option<ut::ExpressionNode>)
    ensures
        converts_bound(*b, out),
    decreases b, 0nat,
{
    match b {
        None => None,
        Some(e) => Some(expression_from(e)),
    }
}

pub fn spread_or_expression_from(s: &pt::SpreadOrExpression) -> (out: ut::SpreadOrExpression)
    ensures
        converts_spread_or_expression(*s, out),
    decreases s, 0nat,
{
    match s {
        pt::SpreadOrExpression::Expression(e) => ut::SpreadOrExpression::Expression(
            expression_from(e),
        ),
        pt::SpreadOrExpression::Spread(sp) => ut::SpreadOrExpression::Spread(spread_from(sp)),
    }
}

/// The spreading of an expression into an inline array.
pub fn spread_from(sp: &pt::Spread) -> (n: ut::SpreadNode)
    ensures
        converts_spread_or_expression(
            pt::SpreadOrExpression::Spread(*sp),
            ut::SpreadOrExpression::Spread(n),
        ),
    decreases sp, 0nat,
{
    let x = expression_from(&sp.expression);
    Node::spanned(ut::Spread { expression: x }, sp.span)
}

/// The untyped type of a type.
pub fn type_from(t: &pt::Type) -> (n: ut::UnresolvedTypeNode)
    ensures
        converts_type(*t, n),
    decreases t, 0nat,
{
    match t {
        pt::Type::Basic(b) => basic_type_from(b),
        pt::Type::Array(a) => array_type_from(a),
        pt::Type::Struct(s) => struct_type_from(s),
        pt::Type::Tuple(tt) => {
            let ts = types_from(&tt.elements);
            Node::spanned(ut::UnresolvedType::Tuple(ts), tt.span)
        },
    }
}

/// The untyped types of a list of types, in order.
pub fn types_from(ts: &Vec<pt::Type>) -> (r: Vec<ut::UnresolvedTypeNode>)
    ensures
        converts_types(ts@, r@),
    decreases ts, 0nat,
{
    let mut out: Vec<ut::UnresolvedTypeNode> = Vec::new();
    let mut i: usize = 0;
    while i < ts.len()
        invariant
            i <= ts@.len(),
            out@.len() == i,
            forall|j: int| 0 <= j < i ==> #[trigger] converts_type(ts@[j], out@[j]),
        decreases ts@.len() - i,
    {
        proof {
            assert(decreases_to!(*ts => ts@));
            assert(decreases_to!(ts@ => ts@[i as int]));
        }
        let x = type_from(&ts[i]);
        out.push(x);
        i += 1;
    }
    assert(forall|j: int| 0 <= j < ts@.len() ==> converts_type(ts@[j], out@[j]));
    out
}

/// An array type: built from the innermost array, of the element type,
/// outwards to the first dimension.
fn array_type_from(a: &pt::ArrayType) -> (n: ut::UnresolvedTypeNode)
    ensures
        spans(n, a.span),
        converts_array_dimensions(*a, 0, n.value),
    decreases a, 0nat,
{
    let count = a.inner_dimensions.len();
    let element = array_element_from(&a.ty);
    proof {
        assert(decreases_to!(*a => a.inner_dimensions));
        assert(decreases_to!(a.inner_dimensions => a.inner_dimensions@));
    }
    let innermost_size = if count == 0 {
        expression_from(&a.outer_dimension)
    } else {
        proof {
            assert(decreases_to!(a.inner_dimensions@ => a.inner_dimensions@[count - 1]));
        }
        expression_from(&a.inner_dimensions[count - 1])
    };
    let mut acc = ut::UnresolvedType::Array(Box::new(element), innermost_size);
    let mut k: usize = count;
    while k > 0
        invariant
            k <= count,
            count == a.inner_dimensions@.len(),
            converts_array_dimensions(*a, k as nat, acc),
        decreases k,
    {
        let size = if k == 1 {
            expression_from(&a.outer_dimension)
        } else {
            proof {
                assert(decreases_to!(*a => a.inner_dimensions));
                assert(decreases_to!(a.inner_dimensions => a.inner_dimensions@));
                assert(decreases_to!(a.inner_dimensions@ => a.inner_dimensions@[k - 2]));
            }
            expression_from(&a.inner_dimensions[k - 2])
        };
        acc = ut::UnresolvedType::Array(Box::new(Node::spanned(acc, a.span)), size);
        k -= 1;
    }
    Node::spanned(acc, a.span)
}

fn array_element_from(b: &pt::BasicOrStructOrTupleType) -> (n: ut::UnresolvedTypeNode)
    ensures
        converts_array_element(*b, n),
    decreases b, 0nat,
{
    match b {
        pt::BasicOrStructOrTupleType::Basic(t) => basic_type_from(t),
        pt::BasicOrStructOrTupleType::Struct(s) => struct_type_from(s),
        pt::BasicOrStructOrTupleType::Tuple(tt) => {
            let ts = types_from(&tt.elements);
            Node::spanned(ut::UnresolvedType::Tuple(ts), tt.span)
        },
    }
}

/// The variable of type `ty` named by `id`.
pub fn variable_from(id: &pt::IdentifierExpression, ty: &pt::Type) -> (v: ut::VariableNode)
    ensures
        converts_variable(*id, *ty, v),
    decreases ty, 1nat,
{
    let t = type_from(ty);
    Node::spanned(ut::Variable::new(id.value.clone(), t), id.span)
}

fn declaration_from(i: &pt::TypedIdentifier, span: pt::Span) -> (n: ut::StatementNode)
    ensures
        converts_declaration(*i, span, n),
    decreases i, 0nat,
{
    let v = variable_from(&i.identifier, &i.ty);
    Node::spanned(ut::Statement::Declaration(v), span)
}

/// A `for` loop over a range, with the statements of its body.
pub fn iteration_statement_from(it: &pt::IterationStatement) -> (n: ut::StatementNode)
    ensures
        converts_statement(pt::Statement::Iteration(*it), seq![n]),
    decreases it, 0nat,
{
    let var = variable_from(&it.id.identifier, &it.id.ty);
    let from = expression_from(&it.from);
    let to = expression_from(&it.to);
    let body = statements_from(&it.statements);
    Node::spanned(ut::Statement::For(var, from, to, body), it.span)
}

/// An assertion, with its message if it has one.
pub fn assertion_statement_from(a: &pt::AssertionStatement) -> (n: ut::StatementNode)
    ensures
        converts_statement(pt::Statement::Assertion(*a), seq![n]),
    decreases a, 0nat,
{
    let x = expression_from(&a.expression);
    let m = match &a.message {
        None => None,
        Some(text) => Some(text.value.clone()),
    };
    Node::spanned(ut::Statement::Assertion(x, m), a.span)
}

/// A return of a list of expressions.
pub fn return_statement_from(ret: &pt::ReturnStatement) -> (n: ut::StatementNode)
    ensures
        converts_statement(pt::Statement::Return(*ret), seq![n]),
    decreases ret, 0nat,
{
    let es = expressions_from(&ret.expressions);
    let list = Node::spanned(ut::ExpressionList { expressions: es }, ret.span);
    Node::spanned(ut::Statement::Return(list), ret.span)
}

fn single(n: ut::StatementNode) -> (r: Vec<ut::StatementNode>)
    ensures
        r@ == seq![n],
{
    let mut r: Vec<ut::StatementNode> = Vec::new();
    r.push(n);
    r
}

/// The statements a statement becomes.
pub fn statements_from_statement(s: &pt::Statement) -> (r: Vec<ut::StatementNode>)
    ensures
        converts_statement(*s, r@),
        r@.len() == statement_count(*s),
    decreases s, 0nat,
{
    match s {
        pt::Statement::Definition(d) => definition_statements(d),
        pt::Statement::Iteration(it) => single(iteration_statement_from(it)),
        pt::Statement::Assertion(a) => single(assertion_statement_from(a)),
        pt::Statement::Return(ret) => single(return_statement_from(ret)),
    }
}

/// The statements a list of statements becomes, one after the other.
pub fn statements_from(ss: &Vec<pt::Statement>) -> (r: Vec<ut::StatementNode>)
    ensures
        converts_statements(ss@, r@),
    decreases ss, 0nat,
{
    let mut out: Vec<ut::StatementNode> = Vec::new();
    let mut i: usize = 0;
    assert(ss@.take(0) =~= Seq::<pt::Statement>::empty());
    while i < ss.len()
        invariant
            i <= ss@.len(),
            converts_statements(ss@.take(i as int), out@),
        decreases ss@.len() - i,
    {
        proof {
            assert(decreases_to!(*ss => ss@));
            assert(decreases_to!(ss@ => ss@[i as int]));
        }
        let mut next = statements_from_statement(&ss[i]);
        let ghost before = out@;
        let ghost added = next@;
        out.append(&mut next);
        proof {
            let taken = ss@.take(i + 1);
            assert(taken.subrange(0, taken.len() - 1) =~= ss@.take(i as int));
            assert(taken[taken.len() - 1] == ss@[i as int]);
            let k = statement_count(ss@[i as int]);
            assert(out@.subrange(0, out@.len() - k) =~= before);
            assert(out@.subrange(out@.len() - k, out@.len() as int) =~= added);
        }
        i += 1;
    }
    assert(ss@.take(ss@.len() as int) =~= ss@);
    out
}

/// The statements a definition statement becomes: with one target, the
/// declaration of a typed target and then a definition, or a multiple
/// definition when the expression is a function call; with any other
/// number of targets, the declarations of the typed targets and then one
/// multiple definition of all targets.
pub fn statements_from_definition(definition: pt::DefinitionStatement) -> (r: Vec<ut::StatementNode>)
    ensures
        converts_definition(definition, r@),
        r@.len() == statement_count(pt::Statement::Definition(definition)),
{
    definition_statements(&definition)
}

fn definition_statements(d: &pt::DefinitionStatement) -> (r: Vec<ut::StatementNode>)
    ensures
        converts_definition(*d, r@),
        r@.len() == statement_count(pt::Statement::Definition(*d)),
    decreases d, 1nat,
{
    if d.lhs.len() == 1 {
        match &d.lhs[0] {
            pt::TypedIdentifierOrAssignee::TypedIdentifier(i) => {
                let declaration = declaration_from(i, d.span);
                let definition = single_definition_from(d);
                let mut r: Vec<ut::StatementNode> = Vec::new();
                r.push(declaration);
                r.push(Node::spanned(definition, d.span));
                r
            },
            pt::TypedIdentifierOrAssignee::Assignee(_) => {
                let definition = single_definition_from(d);
                let mut r: Vec<ut::StatementNode> = Vec::new();
                r.push(Node::spanned(definition, d.span));
                r
            },
        }
    } else {
        let ghost lhs = d.lhs@;
        let mut out: Vec<ut::StatementNode> = Vec::new();
        let mut j: usize = 0;
        assert(lhs.take(0) =~= Seq::<pt::TypedIdentifierOrAssignee>::empty());
        while j < d.lhs.len()
            invariant
                j <= lhs.len(),
                lhs == d.lhs@,
                out@.len() == typed_count(lhs.take(j as int)),
                forall|k: int|
                    #![trigger lhs[k]]
                    0 <= k < j && lhs[k] is TypedIdentifier ==> converts_declaration(
                        lhs[k]->TypedIdentifier_0,
                        lhs[k]->TypedIdentifier_0.span,
                        out@[typed_count(lhs.take(k)) as int],
                    ),
            decreases lhs.len() - j,
        {
            proof {
                let taken = lhs.take(j + 1);
                assert(taken.drop_last() =~= lhs.take(j as int));
                assert(taken.last() == lhs[j as int]);
                assert(decreases_to!(*d => d.lhs));
                assert(decreases_to!(d.lhs => d.lhs@));
                assert(decreases_to!(d.lhs@ => d.lhs@[j as int]));
            }
            let ghost before = out@;
            match &d.lhs[j] {
                pt::TypedIdentifierOrAssignee::TypedIdentifier(t) => {
                    proof {
                        assert(decreases_to!(d.lhs@[j as int] => *t));
                    }
                    let declaration = declaration_from(t, t.span);
                    out.push(declaration);
                },
                pt::TypedIdentifierOrAssignee::Assignee(_) => {},
            }
            proof {
                assert forall|k: int|
                    #![trigger lhs[k]]
                    0 <= k < j + 1 && lhs[k] is TypedIdentifier implies converts_declaration(
                    lhs[k]->TypedIdentifier_0,
                    lhs[k]->TypedIdentifier_0.span,
                    out@[typed_count(lhs.take(k)) as int],
                ) by {
                    if k < j {
                        let prefix = lhs.take(j as int);
                        lemma_typed_count_prefix(prefix, k);
                        assert(prefix.take(k) =~= lhs.take(k));
                        assert(prefix[k] == lhs[k]);
                        assert(out@[typed_count(lhs.take(k)) as int] == before[typed_count(
                            lhs.take(k),
                        ) as int]);
                    }
                }
            }
            j += 1;
        }
        assert(lhs.take(lhs.len() as int) =~= lhs);
        let mut targets: Vec<ut::AssigneeNode> = Vec::new();
        let mut k: usize = 0;
        while k < d.lhs.len()
            invariant
                k <= lhs.len(),
                lhs == d.lhs@,
                targets@.len() == k,
                forall|m: int| 0 <= m < k ==> #[trigger] converts_target(lhs[m], targets@[m]),
            decreases lhs.len() - k,
        {
            proof {
                assert(decreases_to!(*d => d.lhs));
                assert(decreases_to!(d.lhs => d.lhs@));
                assert(decreases_to!(d.lhs@ => d.lhs@[k as int]));
            }
            let t = target_from(&d.lhs[k]);
            targets.push(t);
            k += 1;
        }
        let x = expression_from(&d.expression);
        assert(forall|m: int| 0 <= m < lhs.len() ==> converts_target(lhs[m], targets@[m]));
        let ghost declarations = out@;
        out.push(Node::spanned(ut::Statement::MultipleDefinition(targets, x), d.span));
        proof {
            assert forall|k: int|
                #![trigger lhs[k]]
                0 <= k < lhs.len() && lhs[k] is TypedIdentifier implies converts_declaration(
                lhs[k]->TypedIdentifier_0,
                lhs[k]->TypedIdentifier_0.span,
                out@[typed_count(lhs.take(k)) as int],
            ) by {
                lemma_typed_count_prefix(lhs, k);
                assert(out@[typed_count(lhs.take(k)) as int] == declarations[typed_count(
                    lhs.take(k),
                ) as int]);
            }
        }
        out
    }
}

/// A typed target before position `k` is counted among the typed targets
/// before position `k + 1`.
proof fn lemma_typed_count_prefix(lhs: Seq<pt::TypedIdentifierOrAssignee>, k: int)
    requires
        0 <= k < lhs.len(),
        lhs[k] is TypedIdentifier,
    ensures
        typed_count(lhs.take(k)) < typed_count(lhs),
    decreases lhs.len(),
{
    if k < lhs.len() - 1 {
        lemma_typed_count_prefix(lhs.drop_last(), k);
        assert(lhs.drop_last().take(k) =~= lhs.take(k));
        assert(lhs.drop_last()[k] == lhs[k]);
    } else {
        assert(lhs.drop_last() =~= lhs.take(k));
    }
}

/// The definition of the single target of `d`.
fn single_definition_from(d: &pt::DefinitionStatement) -> (v: ut::Statement)
    requires
        d.lhs@.len() > 0,
    ensures
        converts_single_definition(*d, v),
    decreases d, 0nat,
{
    let x = expression_from(&d.expression);
    proof {
        assert(decreases_to!(*d => d.lhs));
        assert(decreases_to!(d.lhs => d.lhs@));
        assert(decreases_to!(d.lhs@ => d.lhs@[0]));
    }
    let a = target_from(&d.lhs[0]);
    let is_call = match &x.value {
        ut::Expression::FunctionCall(..) => true,
        _ => false,
    };
    if is_call {
        let mut targets: Vec<ut::AssigneeNode> = Vec::new();
        targets.push(a);
        ut::Statement::MultipleDefinition(targets, x)
    } else {
        ut::Statement::Definition(a, x)
    }
}

/// The assignee of a target of a definition.
pub fn target_from(t: &pt::TypedIdentifierOrAssignee) -> (n: ut::AssigneeNode)
    ensures
        converts_target(*t, n),
    decreases t, 0nat,
{
    match t {
        pt::TypedIdentifierOrAssignee::TypedIdentifier(i) => identifier_assignee_from(&i.identifier),
        pt::TypedIdentifierOrAssignee::Assignee(a) => assignee_from(a),
    }
}

/// The identifier of an assignee with its accesses applied, from left to
/// right.
pub fn assignee_from(a: &pt::Assignee) -> (n: ut::AssigneeNode)
    ensures
        converts_assignee(*a, a.accesses@.len(), n),
    decreases a, 0nat,
{
    let mut acc = identifier_assignee_from(&a.id);
    let mut i: usize = 0;
    while i < a.accesses.len()
        invariant
            i <= a.accesses@.len(),
            converts_assignee(*a, i as nat, acc),
        decreases a.accesses@.len() - i,
    {
        let next = match &a.accesses[i] {
            pt::AssigneeAccess::Select(s) => {
                proof {
                    assert(decreases_to!(*a => a.accesses));
                    assert(decreases_to!(a.accesses => a.accesses@));
                    assert(decreases_to!(a.accesses@ => a.accesses@[i as int]));
                    assert(decreases_to!(a.accesses@[i as int] => *s));
                    assert(decreases_to!(*s => s.expression));
                }
                let r = range_or_expression_from(&s.expression);
                ut::Assignee::Select(Box::new(acc), Box::new(r))
            },
            pt::AssigneeAccess::Dot(d) => match d.inner() {
                pt::IdentifierOrDecimal::Identifier(id) => ut::Assignee::Member(
                    Box::new(acc),
                    Box::new(id.value.clone()),
                ),
                pt::IdentifierOrDecimal::Decimal(number) => {
                    let index = parse_u64(number.digits(), 10).unwrap();
                    ut::Assignee::Element(Box::new(acc), index as u32)
                },
            },
        };
        acc = Node::spanned(next, a.span);
        i += 1;
    }
    acc
}

} // verus!
