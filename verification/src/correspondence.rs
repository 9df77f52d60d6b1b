//! What the untyped tree built from a parse tree is: for each kind of parse
//! tree node, a relation between the node and the untyped nodes it is turned
//! into. Each relation fixes its output: the shape of every untyped value,
//! the names and numbers in it (by their characters and their values), and
//! the positions of every node, which are those of a given part of the source.
use vstd::prelude::*;
use crate::number::{decimal_value, hex_value};
use crate::parse_tree as pt;
use crate::parse_tree::{Span, DecimalSuffix};
use crate::untyped as ut;
use crate::untyped::spans;

verus! {

/// The constant that a decimal literal of value `v` with `suffix` denotes.
pub open spec fn is_decimal_constant(suffix: Option<DecimalSuffix>, v: nat, e: ut::Expression) -> bool {
    match (suffix, e) {
        (None, ut::Expression::IntConstant(x)) => x@ == v,
        (Some(DecimalSuffix::Field), ut::Expression::FieldConstant(x)) => x@ == v,
        (Some(DecimalSuffix::U8), ut::Expression::U8Constant(x)) => x == v,
        (Some(DecimalSuffix::U16), ut::Expression::U16Constant(x)) => x == v,
        (Some(DecimalSuffix::U32), ut::Expression::U32Constant(x)) => x == v,
        (Some(DecimalSuffix::U64), ut::Expression::U64Constant(x)) => x == v,
        _ => false,
    }
}

/// The constant that a hexadecimal literal denotes: its type is the one its
/// variant names.
pub open spec fn is_hex_constant(h: pt::HexNumberExpression, e: ut::Expression) -> bool {
    match (h, e) {
        (pt::HexNumberExpression::U8(d), ut::Expression::U8Constant(x)) => x == hex_value(d.value@),
        (pt::HexNumberExpression::U16(d), ut::Expression::U16Constant(x)) => x == hex_value(
            d.value@,
        ),
        (pt::HexNumberExpression::U32(d), ut::Expression::U32Constant(x)) => x == hex_value(
            d.value@,
        ),
        (pt::HexNumberExpression::U64(d), ut::Expression::U64Constant(x)) => x == hex_value(
            d.value@,
        ),
        _ => false,
    }
}

/// A literal becomes the constant it denotes, at the literal's position.
pub open spec fn converts_literal(l: pt::LiteralExpression, n: ut::ExpressionNode) -> bool {
    match l {
        pt::LiteralExpression::BooleanLiteral(c) => spans(n, c.spec_span()) && n.value
            == ut::Expression::BooleanConstant(c.spec_value() == seq!['t', 'r', 'u', 'e']),
        pt::LiteralExpression::DecimalLiteral(d) => spans(n, d.spec_span()) && is_decimal_constant(
            d.spec_suffix(),
            decimal_value(d.spec_number().spec_digits()),
            n.value,
        ),
        pt::LiteralExpression::HexLiteral(h) => spans(n, h.spec_span()) && is_hex_constant(
            h.spec_value(),
            n.value,
        ),
    }
}

/// An identifier becomes the expression that names it.
pub open spec fn converts_identifier(i: pt::IdentifierExpression, n: ut::ExpressionNode) -> bool {
    &&& spans(n, i.span)
    &&& n.value matches ut::Expression::Identifier(s) && s@ == i.value@
}

/// An identifier becomes the assignee that names it.
pub open spec fn converts_identifier_assignee(
    i: pt::IdentifierExpression,
    n: ut::AssigneeNode,
) -> bool {
    &&& spans(n, i.span)
    &&& n.value matches ut::Assignee::Identifier(s) && s@ == i.value@
}

/// A generic argument: `_` is left to be inferred, a literal or an
/// identifier becomes the expression it is.
pub open spec fn converts_generic_value(
    c: pt::ConstantGenericValue,
    o: Option<ut::ExpressionNode>,
) -> bool {
    match (c, o) {
        (pt::ConstantGenericValue::Underscore, None) => true,
        (pt::ConstantGenericValue::Value(l), Some(x)) => converts_literal(l, x),
        (pt::ConstantGenericValue::Identifier(i), Some(x)) => converts_identifier(i, x),
        _ => false,
    }
}

/// Explicit generic arguments, when given, become one entry each, in order.
pub open spec fn converts_generics(
    g: Option<pt::ExplicitGenerics>,
    out: Option<Vec<Option<ut::ExpressionNode>>>,
) -> bool {
    match (g, out) {
        (None, None) => true,
        (Some(eg), Some(v)) => v@.len() == eg.values@.len() && forall|i: int|
            0 <= i < v@.len() ==> #[trigger] converts_generic_value(eg.values@[i], v@[i]),
        _ => false,
    }
}

/// The untyped type a basic type stands for, and where it stands.
pub open spec fn basic_type(b: pt::BasicType) -> (ut::UnresolvedType, Span) {
    match b {
        pt::BasicType::Field(s) => (ut::UnresolvedType::FieldElement, s),
        pt::BasicType::Boolean(s) => (ut::UnresolvedType::Boolean, s),
        pt::BasicType::U8(s) => (ut::UnresolvedType::Uint(8), s),
        pt::BasicType::U16(s) => (ut::UnresolvedType::Uint(16), s),
        pt::BasicType::U32(s) => (ut::UnresolvedType::Uint(32), s),
        pt::BasicType::U64(s) => (ut::UnresolvedType::Uint(64), s),
    }
}

pub open spec fn converts_basic_type(b: pt::BasicType, n: ut::UnresolvedTypeNode) -> bool {
    n.value == basic_type(b).0 && spans(n, basic_type(b).1)
}

/// A struct type becomes a user type of that name with its generic arguments.
pub open spec fn converts_struct_type(s: pt::StructType, n: ut::UnresolvedTypeNode) -> bool {
    &&& spans(n, s.span)
    &&& n.value matches ut::UnresolvedType::User(name, g) && name@ == s.id.value@
        && converts_generics(s.explicit_generics, g)
}

/// The binary operation `op` of the untyped tree, with its operands; `!=`
/// has none of its own.
pub open spec fn binary_operands(op: pt::BinaryOperator, v: ut::Expression) -> Option<
    (ut::ExpressionNode, ut::ExpressionNode),
> {
    match (op, v) {
        (pt::BinaryOperator::Add, ut::Expression::Add(l, r)) => Some((*l, *r)),
        (pt::BinaryOperator::Sub, ut::Expression::Sub(l, r)) => Some((*l, *r)),
        (pt::BinaryOperator::Mul, ut::Expression::Mult(l, r)) => Some((*l, *r)),
        (pt::BinaryOperator::Div, ut::Expression::Div(l, r)) => Some((*l, *r)),
        (pt::BinaryOperator::Rem, ut::Expression::Rem(l, r)) => Some((*l, *r)),
        (pt::BinaryOperator::Eq, ut::Expression::Eq(l, r)) => Some((*l, *r)),
        (pt::BinaryOperator::Lt, ut::Expression::Lt(l, r)) => Some((*l, *r)),
        (pt::BinaryOperator::Lte, ut::Expression::Le(l, r)) => Some((*l, *r)),
        (pt::BinaryOperator::Gt, ut::Expression::Gt(l, r)) => Some((*l, *r)),
        (pt::BinaryOperator::Gte, ut::Expression::Ge(l, r)) => Some((*l, *r)),
        (pt::BinaryOperator::And, ut::Expression::And(l, r)) => Some((*l, *r)),
        (pt::BinaryOperator::Or, ut::Expression::Or(l, r)) => Some((*l, *r)),
        (pt::BinaryOperator::Pow, ut::Expression::Pow(l, r)) => Some((*l, *r)),
        (pt::BinaryOperator::BitXor, ut::Expression::BitXor(l, r)) => Some((*l, *r)),
        (pt::BinaryOperator::LeftShift, ut::Expression::LeftShift(l, r)) => Some((*l, *r)),
        (pt::BinaryOperator::RightShift, ut::Expression::RightShift(l, r)) => Some((*l, *r)),
        (pt::BinaryOperator::BitAnd, ut::Expression::BitAnd(l, r)) => Some((*l, *r)),
        (pt::BinaryOperator::BitOr, ut::Expression::BitOr(l, r)) => Some((*l, *r)),
        _ => None,
    }
}

/// How many statements a statement of the parse tree becomes: a definition
/// of one typed variable is a declaration and a definition, a definition of
/// several targets declares each typed one and then assigns them all.
pub open spec fn statement_count(s: pt::Statement) -> nat {
    match s {
        pt::Statement::Definition(d) => if d.lhs@.len() == 1 {
            if d.lhs@[0] is TypedIdentifier {
                2
            } else {
                1
            }
        } else {
            typed_count(d.lhs@) + 1
        },
        _ => 1,
    }
}

/// How many of the targets are typed identifiers, that is declare a variable.
pub open spec fn typed_count(lhs: Seq<pt::TypedIdentifierOrAssignee>) -> nat
    decreases lhs.len(),
{
    if lhs.len() == 0 {
        0
    } else {
        typed_count(lhs.drop_last()) + if lhs.last() is TypedIdentifier {
            1nat
        } else {
            0nat
        }
    }
}

pub open spec fn converts_message(m: Option<pt::AnyString>, out: Option<String>) -> bool {
    match (m, out) {
        (None, None) => true,
        (Some(a), Some(s)) => s@ == a.value@,
        _ => false,
    }
}

/// An expression and the untyped expression it becomes.
pub open spec fn converts_expression(e: pt::Expression, n: ut::ExpressionNode) -> bool
    decreases e, 0nat,
{
    match e {
        pt::Expression::Binary(b) => spans(n, b.span) && if b.op == pt::BinaryOperator::NotEq {
            // `a != b` becomes `!(a == b)`, both at the position of `a != b`
            match n.value {
                ut::Expression::Not(x) => spans(*x, b.span) && match x.value {
                    ut::Expression::Eq(l, r) => converts_expression(*b.left, *l)
                        && converts_expression(*b.right, *r),
                    _ => false,
                },
                _ => false,
            }
        } else {
            match binary_operands(b.op, n.value) {
                Some((l, r)) => converts_expression(*b.left, l) && converts_expression(*b.right, r),
                None => false,
            }
        },
        pt::Expression::Ternary(t) => spans(n, t.span) && match n.value {
            ut::Expression::Conditional(c) => {
                &&& converts_expression(*t.condition, *c.condition)
                &&& c.consequence_statements@.len() == 0
                &&& converts_expression(*t.consequence, *c.consequence)
                &&& c.alternative_statements@.len() == 0
                &&& converts_expression(*t.alternative, *c.alternative)
                &&& c.kind == ut::ConditionalKind::Ternary
            },
            _ => false,
        },
        pt::Expression::IfElse(f) => spans(n, f.span) && match n.value {
            ut::Expression::Conditional(c) => {
                &&& converts_expression(*f.condition, *c.condition)
                &&& converts_statements(f.consequence_statements@, c.consequence_statements@)
                &&& converts_expression(*f.consequence, *c.consequence)
                &&& converts_statements(f.alternative_statements@, c.alternative_statements@)
                &&& converts_expression(*f.alternative, *c.alternative)
                &&& c.kind == ut::ConditionalKind::IfElse
            },
            _ => false,
        },
        pt::Expression::Literal(l) => converts_literal(l, n),
        pt::Expression::Identifier(i) => converts_identifier(i, n),
        pt::Expression::Postfix(p) => converts_postfix(p, p.accesses@.len(), n),
        pt::Expression::InlineArray(a) => spans(n, a.span) && match n.value {
            ut::Expression::InlineArray(v) => v@.len() == a.expressions@.len() && forall|i: int|
                #![trigger a.expressions@[i]]
                0 <= i < v@.len() ==> converts_spread_or_expression(a.expressions@[i], v@[i]),
            _ => false,
        },
        pt::Expression::InlineTuple(t) => spans(n, t.span) && match n.value {
            ut::Expression::InlineTuple(v) => converts_expressions(t.elements@, v@),
            _ => false,
        },
        pt::Expression::InlineStruct(s) => spans(n, s.span) && match n.value {
            ut::Expression::InlineStruct(name, ms) => {
                &&& name@ == s.ty.value@
                &&& ms@.len() == s.members@.len()
                &&& forall|i: int|
                    #![trigger s.members@[i]]
                    0 <= i < ms@.len() ==> ms@[i].0@ == s.members@[i].id.value@
                        && converts_expression(s.members@[i].expression, ms@[i].1)
            },
            _ => false,
        },
        pt::Expression::ArrayInitializer(a) => spans(n, a.span) && match n.value {
            ut::Expression::ArrayInitializer(v, c) => converts_expression(*a.value, *v)
                && converts_expression(*a.count, *c),
            _ => false,
        },
        pt::Expression::Unary(u) => spans(n, u.span) && match (u.op, n.value) {
            (pt::UnaryOperator::Not, ut::Expression::Not(x)) => converts_expression(
                *u.expression,
                *x,
            ),
            (pt::UnaryOperator::Neg, ut::Expression::Neg(x)) => converts_expression(
                *u.expression,
                *x,
            ),
            (pt::UnaryOperator::Pos, ut::Expression::Pos(x)) => converts_expression(
                *u.expression,
                *x,
            ),
            _ => false,
        },
    }
}

/// Expressions become one untyped expression each, in order.
pub open spec fn converts_expressions(es: Seq<pt::Expression>, ns: Seq<ut::ExpressionNode>) -> bool
    decreases es, 0nat,
{
    es.len() == ns.len() && forall|i: int|
        #![trigger es[i]]
        0 <= i < es.len() ==> converts_expression(es[i], ns[i])
}

/// The base of a postfix expression with its first `k` accesses applied,
/// from left to right: `a(34)[42]` becomes `Select(FunctionCall(a, 34), 42)`.
/// Each access produces a node at the position of the access.
pub open spec fn converts_postfix(p: pt::PostfixExpression, k: nat, n: ut::ExpressionNode) -> bool
    decreases p, k,
{
    if k == 0 {
        converts_expression(*p.base, n)
    } else if k > p.accesses@.len() {
        false
    } else {
        let prior = (k - 1) as nat;
        match p.accesses@[k - 1] {
            pt::Access::Call(c) => spans(n, c.span) && match n.value {
                ut::Expression::FunctionCall(f, g, args) => {
                    &&& converts_postfix(p, prior, *f)
                    &&& converts_generics(c.explicit_generics, g)
                    &&& converts_expressions(c.arguments.expressions@, args@)
                },
                _ => false,
            },
            pt::Access::Select(s) => spans(n, s.span) && match n.value {
                ut::Expression::Select(x, r) => converts_postfix(p, prior, *x)
                    && converts_range_or_expression(s.expression, *r),
                _ => false,
            },
            pt::Access::Dot(d) => spans(n, d.spec_span()) && match (d.spec_inner(), n.value) {
                (pt::IdentifierOrDecimal::Identifier(i), ut::Expression::Member(x, m)) => (*m)@
                    == i.value@ && converts_postfix(p, prior, *x),
                (pt::IdentifierOrDecimal::Decimal(d), ut::Expression::Element(x, index)) => index
                    == decimal_value(d.spec_digits()) && converts_postfix(p, prior, *x),
                _ => false,
            },
        }
    }
}

pub open spec fn converts_range_or_expression(
    r: pt::RangeOrExpression,
    out: ut::RangeOrExpression,
) -> bool
    decreases r, 0nat,
{
    match (r, out) {
        (pt::RangeOrExpression::Expression(e), ut::RangeOrExpression::Expression(x)) =>
            converts_expression(e, x),
        (pt::RangeOrExpression::Range(g), ut::RangeOrExpression::Range(x)) => {
            &&& spans(x, g.span)
            &&& converts_bound(g.from, x.value.from)
            &&& converts_bound(g.to, x.value.to)
        },
        _ => false,
    }
}

/// A bound of a range, when given, becomes an expression.
pub open spec fn converts_bound(b: Option<pt::Expression>, out: Option<ut::ExpressionNode>) -> bool
    decreases b, 0nat,
{
    match (b, out) {
        (None, None) => true,
        (Some(e), Some(x)) => converts_expression(e, x),
        _ => false,
    }
}

pub open spec fn converts_spread_or_expression(
    s: pt::SpreadOrExpression,
    out: ut::SpreadOrExpression,
) -> bool
    decreases s, 0nat,
{
    match (s, out) {
        (pt::SpreadOrExpression::Expression(e), ut::SpreadOrExpression::Expression(x)) =>
            converts_expression(e, x),
        (pt::SpreadOrExpression::Spread(sp), ut::SpreadOrExpression::Spread(x)) => spans(
            x,
            sp.span,
        ) && converts_expression(sp.expression, x.value.expression),
        _ => false,
    }
}

/// A type and the untyped type it becomes.
pub open spec fn converts_type(t: pt::Type, n: ut::UnresolvedTypeNode) -> bool
    decreases t, 0nat,
{
    match t {
        pt::Type::Basic(b) => converts_basic_type(b, n),
        pt::Type::Array(a) => spans(n, a.span) && converts_array_dimensions(a, 0, n.value),
        pt::Type::Struct(s) => converts_struct_type(s, n),
        pt::Type::Tuple(tt) => spans(n, tt.span) && match n.value {
            ut::UnresolvedType::Tuple(ts) => converts_types(tt.elements@, ts@),
            _ => false,
        },
    }
}

pub open spec fn converts_types(ts: Seq<pt::Type>, ns: Seq<ut::UnresolvedTypeNode>) -> bool
    decreases ts, 0nat,
{
    ts.len() == ns.len() && forall|i: int|
        #![trigger ts[i]]
        0 <= i < ts.len() ==> converts_type(ts[i], ns[i])
}

/// An array type from its `k`-th dimension inwards: an array whose size is
/// that dimension, of the array type of the following dimensions, or of the
/// element type after the last one. So `field[2][3]` is an array of two
/// arrays of three field elements. Every array node but the outermost stands
/// at the position of the whole array type.
pub open spec fn converts_array_dimensions(a: pt::ArrayType, k: nat, v: ut::UnresolvedType) -> bool
    decreases a, (a.inner_dimensions@.len() + 1 - k) as nat,
{
    if k > a.inner_dimensions@.len() {
        false
    } else {
        match v {
            ut::UnresolvedType::Array(inner, size) => {
                &&& if k == 0 {
                    converts_expression(*a.outer_dimension, size)
                } else {
                    converts_expression(a.inner_dimensions@[k - 1], size)
                }
                &&& if k == a.inner_dimensions@.len() {
                    converts_array_element(a.ty, *inner)
                } else {
                    spans(*inner, a.span) && converts_array_dimensions(a, k + 1, inner.value)
                }
            },
            _ => false,
        }
    }
}

pub open spec fn converts_array_element(b: pt::BasicOrStructOrTupleType, n: ut::UnresolvedTypeNode) -> bool
    decreases b, 0nat,
{
    match b {
        pt::BasicOrStructOrTupleType::Basic(t) => converts_basic_type(t, n),
        pt::BasicOrStructOrTupleType::Struct(s) => converts_struct_type(s, n),
        pt::BasicOrStructOrTupleType::Tuple(tt) => spans(n, tt.span) && match n.value {
            ut::UnresolvedType::Tuple(ts) => converts_types(tt.elements@, ts@),
            _ => false,
        },
    }
}

/// A variable of type `ty` named by `id`, at the position of `id`.
pub open spec fn converts_variable(
    id: pt::IdentifierExpression,
    ty: pt::Type,
    v: ut::VariableNode,
) -> bool
    decreases ty, 1nat,
{
    &&& spans(v, id.span)
    &&& v.value.id@ == id.value@
    &&& converts_type(ty, v.value._type)
}

/// The declaration of a typed identifier, at the position `span`.
pub open spec fn converts_declaration(i: pt::TypedIdentifier, span: Span, n: ut::StatementNode) -> bool
    decreases i, 0nat,
{
    spans(n, span) && match n.value {
        ut::Statement::Declaration(v) => converts_variable(i.identifier, i.ty, v),
        _ => false,
    }
}

/// A statement and the statements it becomes.
pub open spec fn converts_statement(s: pt::Statement, out: Seq<ut::StatementNode>) -> bool
    decreases s, 0nat,
{
    match s {
        pt::Statement::Definition(d) => converts_definition(d, out),
        pt::Statement::Iteration(it) => out.len() == 1 && spans(out[0], it.span) && match out[0].value {
            ut::Statement::For(var, from, to, body) => {
                &&& converts_variable(it.id.identifier, it.id.ty, var)
                &&& converts_expression(it.from, from)
                &&& converts_expression(it.to, to)
                &&& converts_statements(it.statements@, body@)
            },
            _ => false,
        },
        pt::Statement::Assertion(a) => out.len() == 1 && spans(out[0], a.span) && match out[0].value {
            ut::Statement::Assertion(x, m) => converts_expression(a.expression, x)
                && converts_message(a.message, m),
            _ => false,
        },
        pt::Statement::Return(r) => out.len() == 1 && spans(out[0], r.span) && match out[0].value {
            ut::Statement::Return(list) => spans(list, r.span) && converts_expressions(
                r.expressions@,
                list.value.expressions@,
            ),
            _ => false,
        },
    }
}

/// Statements become the statements each of them becomes, one after the
/// other.
pub open spec fn converts_statements(ss: Seq<pt::Statement>, out: Seq<ut::StatementNode>) -> bool
    decreases ss, 0nat,
{
    if ss.len() == 0 {
        out.len() == 0
    } else {
        let last = ss[ss.len() - 1];
        let k = statement_count(last);
        &&& k <= out.len()
        &&& converts_statements(ss.subrange(0, ss.len() - 1), out.subrange(0, out.len() - k))
        &&& converts_statement(last, out.subrange(out.len() - k, out.len() as int))
    }
}

/// A definition statement. With one target, which may declare a variable:
/// a definition, or a multiple definition with that one target where the
/// expression is a function call. With any other number of targets: the
/// declarations of the typed targets, in order and each at the position of
/// its target, then a multiple definition of all targets.
pub open spec fn converts_definition(d: pt::DefinitionStatement, out: Seq<ut::StatementNode>) -> bool
    decreases d, 1nat,
{
    let lhs = d.lhs@;
    if lhs.len() == 1 {
        match lhs[0] {
            pt::TypedIdentifierOrAssignee::TypedIdentifier(i) => {
                &&& out.len() == 2
                &&& converts_declaration(i, d.span, out[0])
                &&& spans(out[1], d.span)
                &&& converts_single_definition(d, out[1].value)
            },
            pt::TypedIdentifierOrAssignee::Assignee(_) => {
                &&& out.len() == 1
                &&& spans(out[0], d.span)
                &&& converts_single_definition(d, out[0].value)
            },
        }
    } else {
        &&& out.len() == typed_count(lhs) + 1
        &&& forall|j: int|
            #![trigger lhs[j]]
            0 <= j < lhs.len() && lhs[j] is TypedIdentifier ==> converts_declaration(
                lhs[j]->TypedIdentifier_0,
                lhs[j]->TypedIdentifier_0.span,
                out[typed_count(lhs.take(j)) as int],
            )
        &&& spans(out[out.len() - 1], d.span)
        &&& match out[out.len() - 1].value {
            ut::Statement::MultipleDefinition(targets, x) => {
                &&& targets@.len() == lhs.len()
                &&& forall|j: int|
                    #![trigger targets@[j]]
                    0 <= j < lhs.len() ==> converts_target(lhs[j], targets@[j])
                &&& converts_expression(d.expression, x)
            },
            _ => false,
        }
    }
}

/// The statement defining the single target of `d`.
pub open spec fn converts_single_definition(d: pt::DefinitionStatement, v: ut::Statement) -> bool
    decreases d, 0nat,
{
    d.lhs@.len() > 0 && match v {
        ut::Statement::Definition(a, x) => {
            &&& converts_target(d.lhs@[0], a)
            &&& converts_expression(d.expression, x)
            &&& !(x.value is FunctionCall)
        },
        ut::Statement::MultipleDefinition(ts, x) => {
            &&& ts@.len() == 1
            &&& converts_target(d.lhs@[0], ts@[0])
            &&& converts_expression(d.expression, x)
            &&& x.value is FunctionCall
        },
        _ => false,
    }
}

/// A target of a definition: a typed identifier is assigned by its name.
pub open spec fn converts_target(t: pt::TypedIdentifierOrAssignee, n: ut::AssigneeNode) -> bool
    decreases t, 0nat,
{
    match t {
        pt::TypedIdentifierOrAssignee::TypedIdentifier(i) => converts_identifier_assignee(
            i.identifier,
            n,
        ),
        pt::TypedIdentifierOrAssignee::Assignee(a) => converts_assignee(a, a.accesses@.len(), n),
    }
}

/// The identifier of an assignee with its first `k` accesses applied, from
/// left to right; every access produces a node at the position of the whole
/// assignee.
pub open spec fn converts_assignee(a: pt::Assignee, k: nat, n: ut::AssigneeNode) -> bool
    decreases a, k,
{
    if k == 0 {
        converts_identifier_assignee(a.id, n)
    } else if k > a.accesses@.len() {
        false
    } else {
        let prior = (k - 1) as nat;
        spans(n, a.span) && match a.accesses@[k - 1] {
            pt::AssigneeAccess::Select(s) => match n.value {
                ut::Assignee::Select(x, r) => converts_assignee(a, prior, *x)
                    && converts_range_or_expression(s.expression, *r),
                _ => false,
            },
            pt::AssigneeAccess::Dot(d) => match (d.spec_inner(), n.value) {
                (pt::IdentifierOrDecimal::Identifier(i), ut::Assignee::Member(x, m)) => (*m)@
                    == i.value@ && converts_assignee(a, prior, *x),
                (pt::IdentifierOrDecimal::Decimal(d), ut::Assignee::Element(x, index)) => index
                    == decimal_value(d.spec_digits()) && converts_assignee(a, prior, *x),
                _ => false,
            },
        }
    }
}

} // verus!
