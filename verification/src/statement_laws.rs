//! What the conversion does to each kind of statement, stated directly in
//! terms of the parse tree and the untyped statements.
use vstd::prelude::*;
use crate::correspondence::{
    converts_assignee, converts_declaration, converts_definition, converts_expression,
    converts_expressions, converts_range_or_expression, converts_statement, converts_statements,
    converts_target, converts_type, statement_count, typed_count,
};
use crate::laws::{is_call, lemma_call_is_kept, lemma_statements_length, total_statement_count};
use crate::number::decimal_value;
use crate::parse_tree as pt;
use crate::untyped as ut;
use crate::untyped::spans;

verus! {

/// A return statement becomes one return of the written expressions, as
/// many as are written, in the order they are written.
pub proof fn lemma_return_statement(r: pt::ReturnStatement, out: Seq<ut::StatementNode>)
    requires
        converts_statement(pt::Statement::Return(r), out),
    ensures
        out.len() == 1,
        spans(out[0], r.span),
        out[0].value matches ut::Statement::Return(list) && spans(list, r.span)
            && list.value.expressions@.len() == r.expressions@.len() && forall|i: int|
            #![trigger list.value.expressions@[i]]
            0 <= i < r.expressions@.len() ==> converts_expression(
                r.expressions@[i],
                list.value.expressions@[i],
            ),
{
    if let ut::Statement::Return(list) = out[0].value {
        assert(converts_expressions(r.expressions@, list.value.expressions@));
    }
}

/// An assertion keeps its expression and its message, if it has one.
pub proof fn lemma_assertion_statement(a: pt::AssertionStatement, out: Seq<ut::StatementNode>)
    requires
        converts_statement(pt::Statement::Assertion(a), out),
    ensures
        out.len() == 1,
        spans(out[0], a.span),
        out[0].value matches ut::Statement::Assertion(x, m) && converts_expression(a.expression, x)
            && (a.message is None <==> m is None) && (a.message matches Some(s) ==> m.unwrap()@
            == s.value@),
{
}

/// A loop keeps its variable, with its name and type, its lower bound
/// first and its upper bound second, and the statements of its body.
pub proof fn lemma_iteration_statement(it: pt::IterationStatement, out: Seq<ut::StatementNode>)
    requires
        converts_statement(pt::Statement::Iteration(it), out),
    ensures
        out.len() == 1,
        spans(out[0], it.span),
        out[0].value matches ut::Statement::For(var, from, to, body) && var.value.id@
            == it.id.identifier.value@ && spans(var, it.id.identifier.span) && converts_type(
            it.id.ty,
            var.value._type,
        ) && converts_expression(it.from, from) && converts_expression(it.to, to)
            && converts_statements(it.statements@, body@),
{
}

/// A target that declares a variable is assigned by the variable's name, at
/// the position of the name.
pub open spec fn assigns_variable(i: pt::TypedIdentifier, a: ut::AssigneeNode) -> bool {
    spans(a, i.identifier.span) && (a.value matches ut::Assignee::Identifier(s) && s@
        == i.identifier.value@)
}

/// The declaration of the variable `i`: its name and type, with the
/// variable at the position of its name.
pub open spec fn declares_variable(i: pt::TypedIdentifier, st: ut::Statement) -> bool {
    st matches ut::Statement::Declaration(v) && v.value.id@ == i.identifier.value@ && spans(
        v,
        i.identifier.span,
    ) && converts_type(i.ty, v.value._type)
}

/// A definition of one target becomes, for a target that declares a
/// variable, the declaration of that variable and then the definition; for
/// any other target, the definition alone. The definition assigns the
/// value of the expression to the target, as a multiple definition of that
/// one target when the expression is a function call.
pub proof fn lemma_single_definition(d: pt::DefinitionStatement, out: Seq<ut::StatementNode>)
    requires
        converts_statement(pt::Statement::Definition(d), out),
        d.lhs@.len() == 1,
    ensures
        d.lhs@[0] matches pt::TypedIdentifierOrAssignee::TypedIdentifier(i) ==> out.len() == 2
            && spans(out[0], d.span) && declares_variable(i, out[0].value),
        d.lhs@[0] is Assignee ==> out.len() == 1,
        spans(out[out.len() - 1], d.span),
        match out[out.len() - 1].value {
            ut::Statement::Definition(a, x) => converts_target(d.lhs@[0], a) && converts_expression(
                d.expression,
                x,
            ) && !is_call(d.expression),
            ut::Statement::MultipleDefinition(ts, x) => ts@.len() == 1 && converts_target(
                d.lhs@[0],
                ts@[0],
            ) && converts_expression(d.expression, x) && is_call(d.expression),
            _ => false,
        },
        d.lhs@[0] matches pt::TypedIdentifierOrAssignee::TypedIdentifier(i) ==> match out[1].value {
            ut::Statement::Definition(a, _) => assigns_variable(i, a),
            ut::Statement::MultipleDefinition(ts, _) => assigns_variable(i, ts@[0]),
            _ => false,
        },
{
    assert(converts_definition(d, out));
    let last = out[out.len() - 1];
    match last.value {
        ut::Statement::Definition(_, x) => lemma_call_is_kept(d.expression, x),
        ut::Statement::MultipleDefinition(_, x) => lemma_call_is_kept(d.expression, x),
        _ => {},
    }
    if let pt::TypedIdentifierOrAssignee::TypedIdentifier(i) = d.lhs@[0] {
        assert(converts_declaration(i, d.span, out[0]));
    }
}

/// A definition of several targets, or none, becomes the declarations of
/// the variables its targets declare, in the order of the targets and each
/// at the position of its target, then one multiple definition that
/// assigns the value of the expression to all the targets, in order.
pub proof fn lemma_multiple_definition(d: pt::DefinitionStatement, out: Seq<ut::StatementNode>)
    requires
        converts_statement(pt::Statement::Definition(d), out),
        d.lhs@.len() != 1,
    ensures
        out.len() == typed_count(d.lhs@) + 1,
        forall|j: int|
            #![trigger d.lhs@[j]]
            0 <= j < d.lhs@.len() ==> (d.lhs@[j] matches pt::TypedIdentifierOrAssignee::TypedIdentifier(
                i,
            ) ==> spans(out[typed_count(d.lhs@.take(j)) as int], i.span) && declares_variable(
                i,
                out[typed_count(d.lhs@.take(j)) as int].value,
            )),
        spans(out[out.len() - 1], d.span),
        out[out.len() - 1].value matches ut::Statement::MultipleDefinition(targets, x)
            && converts_expression(d.expression, x) && targets@.len() == d.lhs@.len()
            && forall|j: int|
            #![trigger targets@[j]]
            0 <= j < d.lhs@.len() ==> match d.lhs@[j] {
                pt::TypedIdentifierOrAssignee::TypedIdentifier(i) => assigns_variable(i, targets@[j]),
                pt::TypedIdentifierOrAssignee::Assignee(a) => converts_assignee(
                    a,
                    a.accesses@.len(),
                    targets@[j],
                ),
            },
{
    assert(converts_definition(d, out));
    let lhs = d.lhs@;
    assert forall|j: int|
        #![trigger lhs[j]]
        0 <= j < lhs.len() implies (lhs[j] matches pt::TypedIdentifierOrAssignee::TypedIdentifier(
        i,
    ) ==> spans(out[typed_count(lhs.take(j)) as int], i.span) && declares_variable(
        i,
        out[typed_count(lhs.take(j)) as int].value,
    )) by {
        if let pt::TypedIdentifierOrAssignee::TypedIdentifier(i) = lhs[j] {
            assert(converts_declaration(i, i.span, out[typed_count(lhs.take(j)) as int]));
        }
    }
    if let ut::Statement::MultipleDefinition(targets, x) = out[out.len() - 1].value {
        assert forall|j: int|
            #![trigger targets@[j]]
            0 <= j < lhs.len() implies match lhs[j] {
            pt::TypedIdentifierOrAssignee::TypedIdentifier(i) => assigns_variable(i, targets@[j]),
            pt::TypedIdentifierOrAssignee::Assignee(a) => converts_assignee(
                a,
                a.accesses@.len(),
                targets@[j],
            ),
        } by {
            assert(converts_target(lhs[j], targets@[j]));
        }
    }
}

/// An assignee without accesses is the identifier it names; with accesses,
/// its last access applies, at the position of the whole assignee, to what
/// the assignee with the accesses before it is: a selection its index or
/// range, a member access its name and a tuple access its index.
pub proof fn lemma_assignee(a: pt::Assignee, n: ut::AssigneeNode)
    requires
        converts_assignee(a, a.accesses@.len(), n),
    ensures
        a.accesses@.len() == 0 ==> spans(n, a.id.span) && (n.value matches ut::Assignee::Identifier(
            s,
        ) && s@ == a.id.value@),
        a.accesses@.len() > 0 ==> spans(n, a.span) && ({
            let k = (a.accesses@.len() - 1) as nat;
            match a.accesses@[k as int] {
                pt::AssigneeAccess::Select(s) => n.value matches ut::Assignee::Select(x, r)
                    && converts_assignee(a, k, *x) && converts_range_or_expression(
                    s.expression,
                    *r,
                ),
                pt::AssigneeAccess::Dot(d) => match d.spec_inner() {
                    pt::IdentifierOrDecimal::Identifier(i) => n.value matches ut::Assignee::Member(
                        x,
                        m,
                    ) && (*m)@ == i.value@ && converts_assignee(a, k, *x),
                    pt::IdentifierOrDecimal::Decimal(num) => n.value
                        matches ut::Assignee::Element(x, index) && index == decimal_value(
                        num.spec_digits(),
                    ) && converts_assignee(a, k, *x),
                },
            }
        }),
{
}

/// Statements become, one after the other and in their order, what each of
/// them becomes: the `i`-th statement becomes the statements that follow
/// those of the statements before it.
pub proof fn lemma_statements_in_order(ss: Seq<pt::Statement>, out: Seq<ut::StatementNode>, i: int)
    requires
        converts_statements(ss, out),
        0 <= i < ss.len(),
    ensures
        total_statement_count(ss.take(i + 1)) == total_statement_count(ss.take(i)) + statement_count(
            ss[i],
        ),
        total_statement_count(ss.take(i + 1)) <= out.len(),
        converts_statement(
            ss[i],
            out.subrange(
                total_statement_count(ss.take(i)) as int,
                total_statement_count(ss.take(i + 1)) as int,
            ),
        ),
    decreases ss.len(),
{
    let n = ss.len();
    let k = statement_count(ss[n - 1]);
    let init = ss.subrange(0, n - 1);
    let front = out.subrange(0, out.len() - k);
    assert(init =~= ss.drop_last());
    assert(ss.take(i + 1).drop_last() =~= ss.take(i));
    lemma_statements_length(init, front);
    if i == n - 1 {
        assert(ss.take(i) =~= init);
        assert(ss.take(i + 1) =~= ss);
    } else {
        lemma_statements_in_order(init, front, i);
        assert(init.take(i) =~= ss.take(i));
        assert(init.take(i + 1) =~= ss.take(i + 1));
        assert(init[i] == ss[i]);
        assert(front.subrange(
            total_statement_count(ss.take(i)) as int,
            total_statement_count(ss.take(i + 1)) as int,
        ) =~= out.subrange(
            total_statement_count(ss.take(i)) as int,
            total_statement_count(ss.take(i + 1)) as int,
        ));
        lemma_prefix_count_bound(ss, i + 1);
    }
}

/// The statements of a prefix count for no more than those of the whole.
proof fn lemma_prefix_count_bound(ss: Seq<pt::Statement>, j: int)
    requires
        0 <= j <= ss.len(),
    ensures
        total_statement_count(ss.take(j)) <= total_statement_count(ss),
    decreases ss.len(),
{
    if j < ss.len() {
        assert(ss.take(j) =~= ss.drop_last().take(j));
        lemma_prefix_count_bound(ss.drop_last(), j);
    } else {
        assert(ss.take(j) =~= ss);
    }
}

} // verus!
