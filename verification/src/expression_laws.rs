//! What the conversion does to each kind of expression and type, stated
//! directly in terms of the parse tree and the untyped values.
use vstd::prelude::*;
use crate::correspondence::{
    converts_array_dimensions, converts_array_element, converts_expression, converts_generics,
    converts_expressions, converts_literal, converts_postfix, converts_range_or_expression,
    converts_spread_or_expression, converts_statements, converts_type,
};
use crate::number::{decimal_value, hex_value};
use crate::parse_tree as pt;
use crate::parse_tree::DecimalSuffix;
use crate::untyped as ut;
use crate::untyped::spans;

verus! {

/// Each binary operator other than `!=` becomes the operation it names,
/// with the left operand first, at the position of the whole expression.
pub proof fn lemma_binary_operation(b: pt::BinaryExpression, n: ut::ExpressionNode)
    requires
        b.op != pt::BinaryOperator::NotEq,
        converts_expression(pt::Expression::Binary(b), n),
    ensures
        spans(n, b.span),
        match (b.op, n.value) {
            (pt::BinaryOperator::Add, ut::Expression::Add(l, r)) => converts_expression(*b.left, *l)
                && converts_expression(*b.right, *r),
            (pt::BinaryOperator::Sub, ut::Expression::Sub(l, r)) => converts_expression(*b.left, *l)
                && converts_expression(*b.right, *r),
            (pt::BinaryOperator::Mul, ut::Expression::Mult(l, r)) => converts_expression(
                *b.left,
                *l,
            ) && converts_expression(*b.right, *r),
            (pt::BinaryOperator::Div, ut::Expression::Div(l, r)) => converts_expression(*b.left, *l)
                && converts_expression(*b.right, *r),
            (pt::BinaryOperator::Rem, ut::Expression::Rem(l, r)) => converts_expression(*b.left, *l)
                && converts_expression(*b.right, *r),
            (pt::BinaryOperator::Pow, ut::Expression::Pow(l, r)) => converts_expression(*b.left, *l)
                && converts_expression(*b.right, *r),
            (pt::BinaryOperator::Eq, ut::Expression::Eq(l, r)) => converts_expression(*b.left, *l)
                && converts_expression(*b.right, *r),
            (pt::BinaryOperator::Lt, ut::Expression::Lt(l, r)) => converts_expression(*b.left, *l)
                && converts_expression(*b.right, *r),
            (pt::BinaryOperator::Lte, ut::Expression::Le(l, r)) => converts_expression(*b.left, *l)
                && converts_expression(*b.right, *r),
            (pt::BinaryOperator::Gt, ut::Expression::Gt(l, r)) => converts_expression(*b.left, *l)
                && converts_expression(*b.right, *r),
            (pt::BinaryOperator::Gte, ut::Expression::Ge(l, r)) => converts_expression(*b.left, *l)
                && converts_expression(*b.right, *r),
            (pt::BinaryOperator::And, ut::Expression::And(l, r)) => converts_expression(*b.left, *l)
                && converts_expression(*b.right, *r),
            (pt::BinaryOperator::Or, ut::Expression::Or(l, r)) => converts_expression(*b.left, *l)
                && converts_expression(*b.right, *r),
            (pt::BinaryOperator::BitXor, ut::Expression::BitXor(l, r)) => converts_expression(
                *b.left,
                *l,
            ) && converts_expression(*b.right, *r),
            (pt::BinaryOperator::BitAnd, ut::Expression::BitAnd(l, r)) => converts_expression(
                *b.left,
                *l,
            ) && converts_expression(*b.right, *r),
            (pt::BinaryOperator::BitOr, ut::Expression::BitOr(l, r)) => converts_expression(
                *b.left,
                *l,
            ) && converts_expression(*b.right, *r),
            (pt::BinaryOperator::LeftShift, ut::Expression::LeftShift(l, r)) => converts_expression(
                *b.left,
                *l,
            ) && converts_expression(*b.right, *r),
            (pt::BinaryOperator::RightShift, ut::Expression::RightShift(l, r)) =>
                converts_expression(*b.left, *l) && converts_expression(*b.right, *r),
            _ => false,
        },
{
}

/// `!`, `-` and `+` become negation, arithmetic negation and the unary plus
/// of what their operand becomes.
pub proof fn lemma_unary_operation(u: pt::UnaryExpression, n: ut::ExpressionNode)
    requires
        converts_expression(pt::Expression::Unary(u), n),
    ensures
        spans(n, u.span),
        match (u.op, n.value) {
            (pt::UnaryOperator::Not, ut::Expression::Not(x)) => converts_expression(*u.expression, *x),
            (pt::UnaryOperator::Neg, ut::Expression::Neg(x)) => converts_expression(*u.expression, *x),
            (pt::UnaryOperator::Pos, ut::Expression::Pos(x)) => converts_expression(*u.expression, *x),
            _ => false,
        },
{
}

/// An identifier keeps its name.
pub proof fn lemma_identifier(i: pt::IdentifierExpression, n: ut::ExpressionNode)
    requires
        converts_expression(pt::Expression::Identifier(i), n),
    ensures
        spans(n, i.span),
        n.value matches ut::Expression::Identifier(s) && s@ == i.value@,
{
}

/// `true` and `false` become the booleans they name.
pub proof fn lemma_boolean_literal(c: pt::BooleanLiteralExpression, n: ut::ExpressionNode)
    requires
        converts_literal(pt::LiteralExpression::BooleanLiteral(c), n),
    ensures
        spans(n, c.spec_span()),
        c.spec_value() == seq!['t', 'r', 'u', 'e'] ==> n.value == ut::Expression::BooleanConstant(
            true,
        ),
        c.spec_value() == seq!['f', 'a', 'l', 's', 'e'] ==> n.value
            == ut::Expression::BooleanConstant(false),
{
    if c.spec_value() == seq!['f', 'a', 'l', 's', 'e'] {
        assert(seq!['f', 'a', 'l', 's', 'e'][0] != seq!['t', 'r', 'u', 'e'][0]);
    }
}

/// A decimal literal becomes a constant of the type its suffix names, or an
/// integer constant of any size without a suffix, whose value is that of
/// its digits.
pub proof fn lemma_decimal_literal(d: pt::DecimalLiteralExpression, n: ut::ExpressionNode)
    requires
        converts_literal(pt::LiteralExpression::DecimalLiteral(d), n),
    ensures
        spans(n, d.spec_span()),
        ({
            let v = decimal_value(d.spec_number().spec_digits());
            match d.spec_suffix() {
                None => n.value matches ut::Expression::IntConstant(x) && x@ == v,
                Some(DecimalSuffix::Field) => n.value matches ut::Expression::FieldConstant(x) && x@
                    == v,
                Some(DecimalSuffix::U8) => n.value matches ut::Expression::U8Constant(x) && x == v,
                Some(DecimalSuffix::U16) => n.value matches ut::Expression::U16Constant(x) && x == v,
                Some(DecimalSuffix::U32) => n.value matches ut::Expression::U32Constant(x) && x == v,
                Some(DecimalSuffix::U64) => n.value matches ut::Expression::U64Constant(x) && x == v,
            }
        }),
{
}

/// A hexadecimal literal becomes an unsigned constant of the width its
/// variant names, whose value is that of its digits.
pub proof fn lemma_hex_literal(h: pt::HexLiteralExpression, n: ut::ExpressionNode)
    requires
        converts_literal(pt::LiteralExpression::HexLiteral(h), n),
    ensures
        spans(n, h.spec_span()),
        match h.spec_value() {
            pt::HexNumberExpression::U8(d) => n.value matches ut::Expression::U8Constant(x) && x
                == hex_value(d.value@),
            pt::HexNumberExpression::U16(d) => n.value matches ut::Expression::U16Constant(x) && x
                == hex_value(d.value@),
            pt::HexNumberExpression::U32(d) => n.value matches ut::Expression::U32Constant(x) && x
                == hex_value(d.value@),
            pt::HexNumberExpression::U64(d) => n.value matches ut::Expression::U64Constant(x) && x
                == hex_value(d.value@),
        },
{
}

/// Written generic arguments are kept, one for each, in order: `_` as a
/// missing argument, a literal or an identifier as the expression it is.
pub proof fn lemma_generic_arguments(
    g: Option<pt::ExplicitGenerics>,
    out: Option<Vec<Option<ut::ExpressionNode>>>,
)
    requires
        converts_generics(g, out),
    ensures
        g is None <==> out is None,
        g matches Some(eg) ==> out matches Some(v) && v@.len() == eg.values@.len() && forall|i: int|
            0 <= i < v@.len() ==> match #[trigger] eg.values@[i] {
                pt::ConstantGenericValue::Underscore => v@[i] is None,
                pt::ConstantGenericValue::Value(l) => v@[i] matches Some(x) && converts_literal(
                    l,
                    x,
                ),
                pt::ConstantGenericValue::Identifier(id) => v@[i] matches Some(x) && spans(
                    x,
                    id.span,
                ) && (x.value matches ut::Expression::Identifier(s) && s@ == id.value@),
            },
{
    if let (Some(eg), Some(v)) = (g, out) {
        assert forall|i: int| 0 <= i < v@.len() implies match #[trigger] eg.values@[i] {
            pt::ConstantGenericValue::Underscore => v@[i] is None,
            pt::ConstantGenericValue::Value(l) => v@[i] matches Some(x) && converts_literal(l, x),
            pt::ConstantGenericValue::Identifier(id) => v@[i] matches Some(x) && spans(x, id.span)
                && (x.value matches ut::Expression::Identifier(s) && s@ == id.value@),
        } by {
            assert(crate::correspondence::converts_generic_value(eg.values@[i], v@[i]));
        }
    }
}

/// A range keeps each bound that is written, and has none that is not.
pub proof fn lemma_range_bounds(g: pt::Range, out: ut::RangeOrExpression)
    requires
        converts_range_or_expression(pt::RangeOrExpression::Range(g), out),
    ensures
        out matches ut::RangeOrExpression::Range(x) && spans(x, g.span) && (g.from is None
            <==> x.value.from is None) && (g.to is None <==> x.value.to is None) && (g.from
            matches Some(e) ==> converts_expression(e, x.value.from.unwrap())) && (g.to matches Some(
            e,
        ) ==> converts_expression(e, x.value.to.unwrap())),
{
}

/// An expression in brackets stays an expression.
pub proof fn lemma_index_expression(e: pt::Expression, out: ut::RangeOrExpression)
    requires
        converts_range_or_expression(pt::RangeOrExpression::Expression(e), out),
    ensures
        out matches ut::RangeOrExpression::Expression(x) && converts_expression(e, x),
{
}

/// The last access of a postfix expression applies to what the expression
/// with the accesses before it becomes: a call passes its arguments in
/// order, a selection its index or range, a member access its name and a
/// tuple access its index.
pub proof fn lemma_postfix_last_access(p: pt::PostfixExpression, n: ut::ExpressionNode)
    requires
        p.accesses@.len() > 0,
        converts_expression(pt::Expression::Postfix(p), n),
    ensures
        ({
            let k = (p.accesses@.len() - 1) as nat;
            match p.accesses@[k as int] {
                pt::Access::Call(c) => spans(n, c.span) && (n.value
                    matches ut::Expression::FunctionCall(f, g, args) && converts_postfix(p, k, *f)
                    && converts_generics(c.explicit_generics, g) && args@.len()
                    == c.arguments.expressions@.len() && forall|i: int|
                    0 <= i < args@.len() ==> #[trigger] converts_expression(
                        c.arguments.expressions@[i],
                        args@[i],
                    )),
                pt::Access::Select(s) => spans(n, s.span) && (n.value
                    matches ut::Expression::Select(x, r) && converts_postfix(p, k, *x)
                    && converts_range_or_expression(s.expression, *r)),
                pt::Access::Dot(d) => spans(n, d.spec_span()) && match d.spec_inner() {
                    pt::IdentifierOrDecimal::Identifier(i) => n.value matches ut::Expression::Member(
                        x,
                        m,
                    ) && (*m)@ == i.value@ && converts_postfix(p, k, *x),
                    pt::IdentifierOrDecimal::Decimal(num) => n.value
                        matches ut::Expression::Element(x, index) && index == decimal_value(
                        num.spec_digits(),
                    ) && converts_postfix(p, k, *x),
                },
            }
        }),
{
    let k = (p.accesses@.len() - 1) as nat;
    assert(converts_postfix(p, k + 1, n));
    if let pt::Access::Call(c) = p.accesses@[k as int] {
        if let ut::Expression::FunctionCall(f, g, args) = n.value {
            assert(crate::correspondence::converts_expressions(c.arguments.expressions@, args@));
        }
    }
}

/// An inline array keeps its elements in order, spread or not.
pub proof fn lemma_inline_array(a: pt::InlineArrayExpression, n: ut::ExpressionNode)
    requires
        converts_expression(pt::Expression::InlineArray(a), n),
    ensures
        spans(n, a.span),
        n.value matches ut::Expression::InlineArray(v) && v@.len() == a.expressions@.len()
            && forall|i: int|
            0 <= i < v@.len() ==> match #[trigger] a.expressions@[i] {
                pt::SpreadOrExpression::Expression(e) => v@[i] matches ut::SpreadOrExpression::Expression(
                    x,
                ) && converts_expression(e, x),
                pt::SpreadOrExpression::Spread(s) => v@[i] matches ut::SpreadOrExpression::Spread(x)
                    && spans(x, s.span) && converts_expression(s.expression, x.value.expression),
            },
{
    if let ut::Expression::InlineArray(v) = n.value {
        assert forall|i: int| 0 <= i < v@.len() implies match #[trigger] a.expressions@[i] {
            pt::SpreadOrExpression::Expression(e) => v@[i] matches ut::SpreadOrExpression::Expression(
                x,
            ) && converts_expression(e, x),
            pt::SpreadOrExpression::Spread(s) => v@[i] matches ut::SpreadOrExpression::Spread(x)
                && spans(x, s.span) && converts_expression(s.expression, x.value.expression),
        } by {
            assert(converts_spread_or_expression(a.expressions@[i], v@[i]));
        }
    }
}

/// An inline tuple keeps its elements in order.
pub proof fn lemma_inline_tuple(t: pt::InlineTupleExpression, n: ut::ExpressionNode)
    requires
        converts_expression(pt::Expression::InlineTuple(t), n),
    ensures
        spans(n, t.span),
        n.value matches ut::Expression::InlineTuple(v) && v@.len() == t.elements@.len()
            && forall|i: int|
            0 <= i < v@.len() ==> #[trigger] converts_expression(t.elements@[i], v@[i]),
{
    if let ut::Expression::InlineTuple(v) = n.value {
        assert(converts_expressions(t.elements@, v@));
    }
}

/// An inline struct keeps its type name and its members in order, each
/// with its name.
pub proof fn lemma_inline_struct(s: pt::InlineStructExpression, n: ut::ExpressionNode)
    requires
        converts_expression(pt::Expression::InlineStruct(s), n),
    ensures
        spans(n, s.span),
        n.value matches ut::Expression::InlineStruct(name, ms) && name@ == s.ty.value@ && ms@.len()
            == s.members@.len() && forall|i: int|
            0 <= i < ms@.len() ==> (#[trigger] ms@[i]).0@ == s.members@[i].id.value@
                && converts_expression(s.members@[i].expression, ms@[i].1),
{
}

/// `[value; count]` keeps the value first and the count second.
pub proof fn lemma_array_initializer(a: pt::ArrayInitializerExpression, n: ut::ExpressionNode)
    requires
        converts_expression(pt::Expression::ArrayInitializer(a), n),
    ensures
        spans(n, a.span),
        n.value matches ut::Expression::ArrayInitializer(v, c) && converts_expression(*a.value, *v)
            && converts_expression(*a.count, *c),
{
}

/// An if-else expression keeps its condition, its branches and the
/// statements of each branch in place.
pub proof fn lemma_if_else(f: pt::IfElseExpression, n: ut::ExpressionNode)
    requires
        converts_expression(pt::Expression::IfElse(f), n),
    ensures
        spans(n, f.span),
        n.value matches ut::Expression::Conditional(c) && c.kind == ut::ConditionalKind::IfElse
            && converts_expression(*f.condition, *c.condition) && converts_expression(
            *f.consequence,
            *c.consequence,
        ) && converts_expression(*f.alternative, *c.alternative) && converts_statements(
            f.consequence_statements@,
            c.consequence_statements@,
        ) && converts_statements(f.alternative_statements@, c.alternative_statements@),
{
}

/// A ternary expression keeps its condition and branches in place, with no
/// statements.
pub proof fn lemma_ternary(t: pt::TernaryExpression, n: ut::ExpressionNode)
    requires
        converts_expression(pt::Expression::Ternary(t), n),
    ensures
        spans(n, t.span),
        n.value matches ut::Expression::Conditional(c) && c.kind == ut::ConditionalKind::Ternary
            && converts_expression(*t.condition, *c.condition) && converts_expression(
            *t.consequence,
            *c.consequence,
        ) && converts_expression(*t.alternative, *c.alternative)
            && c.consequence_statements@.len() == 0 && c.alternative_statements@.len() == 0,
{
}

/// A basic type becomes the type its keyword names: `field`, `bool`, or an
/// unsigned integer of the width in its name.
pub proof fn lemma_basic_type(b: pt::BasicType, n: ut::UnresolvedTypeNode)
    requires
        converts_type(pt::Type::Basic(b), n) || converts_array_element(
            pt::BasicOrStructOrTupleType::Basic(b),
            n,
        ),
    ensures
        match b {
            pt::BasicType::Field(s) => n.value == ut::UnresolvedType::FieldElement && spans(n, s),
            pt::BasicType::Boolean(s) => n.value == ut::UnresolvedType::Boolean && spans(n, s),
            pt::BasicType::U8(s) => n.value == ut::UnresolvedType::Uint(8) && spans(n, s),
            pt::BasicType::U16(s) => n.value == ut::UnresolvedType::Uint(16) && spans(n, s),
            pt::BasicType::U32(s) => n.value == ut::UnresolvedType::Uint(32) && spans(n, s),
            pt::BasicType::U64(s) => n.value == ut::UnresolvedType::Uint(64) && spans(n, s),
        },
{
}

/// A struct type keeps its name and its generic arguments.
pub proof fn lemma_struct_type(s: pt::StructType, n: ut::UnresolvedTypeNode)
    requires
        converts_type(pt::Type::Struct(s), n),
    ensures
        spans(n, s.span),
        n.value matches ut::UnresolvedType::User(name, g) && name@ == s.id.value@
            && converts_generics(s.explicit_generics, g),
{
}

/// A tuple type keeps its element types in order.
pub proof fn lemma_tuple_type(t: pt::TupleType, n: ut::UnresolvedTypeNode)
    requires
        converts_type(pt::Type::Tuple(t), n),
    ensures
        spans(n, t.span),
        n.value matches ut::UnresolvedType::Tuple(ts) && ts@.len() == t.elements@.len()
            && forall|i: int| 0 <= i < ts@.len() ==> #[trigger] converts_type(t.elements@[i], ts@[i]),
{
}

/// The `k`-th dimension written in an array type, the first being `0`.
pub open spec fn dimension(a: pt::ArrayType, k: int) -> pt::Expression {
    if k == 0 {
        *a.outer_dimension
    } else {
        a.inner_dimensions@[k - 1]
    }
}

/// The type `k` arrays deep inside `t`.
pub open spec fn nested(t: ut::UnresolvedType, k: nat) -> ut::UnresolvedType
    decreases k,
{
    if k == 0 {
        t
    } else {
        match t {
            ut::UnresolvedType::Array(inner, _) => nested(inner.value, (k - 1) as nat),
            _ => t,
        }
    }
}

proof fn lemma_array_levels(a: pt::ArrayType, k: nat, v: ut::UnresolvedType, j: nat)
    requires
        converts_array_dimensions(a, k, v),
        k + j <= a.inner_dimensions@.len(),
    ensures
        nested(v, j) matches ut::UnresolvedType::Array(inner, size) && converts_expression(
            dimension(a, (k + j) as int),
            size,
        ) && (k + j == a.inner_dimensions@.len() ==> converts_array_element(a.ty, *inner)) && (k
            + j < a.inner_dimensions@.len() ==> spans(*inner, a.span)),
    decreases j,
{
    if j > 0 {
        if let ut::UnresolvedType::Array(inner, _) = v {
            lemma_array_levels(a, k + 1, inner.value, (j - 1) as nat);
        }
    }
}

/// An array type is an array for each written dimension, the first one
/// outermost: `j` arrays deep its size is the `j`-th dimension, and inside
/// the last one is the element type. The arrays inside the outermost one
/// stand at the position of the whole array type.
pub proof fn lemma_array_dimensions(a: pt::ArrayType, n: ut::UnresolvedTypeNode, j: nat)
    requires
        converts_type(pt::Type::Array(a), n),
        j <= a.inner_dimensions@.len(),
    ensures
        spans(n, a.span),
        nested(n.value, j) matches ut::UnresolvedType::Array(inner, size) && converts_expression(
            dimension(a, j as int),
            size,
        ) && (j == a.inner_dimensions@.len() ==> converts_array_element(a.ty, *inner)) && (j
            < a.inner_dimensions@.len() ==> spans(*inner, a.span)),
{
    lemma_array_levels(a, 0, n.value, j);
}

/// The type an element type of an array stands for when written alone.
pub open spec fn element_as_type(b: pt::BasicOrStructOrTupleType) -> pt::Type {
    match b {
        pt::BasicOrStructOrTupleType::Basic(t) => pt::Type::Basic(t),
        pt::BasicOrStructOrTupleType::Struct(s) => pt::Type::Struct(s),
        pt::BasicOrStructOrTupleType::Tuple(t) => pt::Type::Tuple(t),
    }
}

/// The element type of an array type becomes what the same type written
/// alone becomes.
pub proof fn lemma_array_element_is_type(b: pt::BasicOrStructOrTupleType, n: ut::UnresolvedTypeNode)
    ensures
        converts_array_element(b, n) <==> converts_type(element_as_type(b), n),
{
}

} // verus!
