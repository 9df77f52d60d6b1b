//! What the conversion does to each kind of declaration, stated directly in
//! terms of the parse tree and the untyped symbols.
use vstd::prelude::*;
use crate::correspondence::{converts_expression, converts_statements, converts_type};
use crate::laws::{lemma_symbols_length, total_symbol_count};
use crate::parse_tree as pt;
use crate::symbols::{
    converts_constant_generic, converts_function, converts_imported_symbol, converts_module,
    converts_parameter, converts_struct_field, converts_symbol_declaration,
    converts_symbol_declarations, main_name, symbol_count,
};
use crate::untyped as ut;
use crate::untyped::spans;

verus! {

/// A function keeps its parameters in order, each with its name, its type
/// and whether it is private; its statements; and a signature whose
/// generics are the names of its generic parameters, whose inputs are the
/// types of its parameters and whose outputs are its return types, each in
/// the order written.
pub proof fn lemma_function(f: pt::FunctionDefinition, n: ut::FunctionNode)
    requires
        converts_function(f, n),
    ensures
        spans(n, f.span),
        n.value.signature.generics@.len() == f.generics@.len(),
        forall|i: int|
            #![trigger n.value.signature.generics@[i]]
            0 <= i < f.generics@.len() ==> n.value.signature.generics@[i].value@
                == f.generics@[i].value@ && spans(n.value.signature.generics@[i], f.generics@[i].span),
        n.value.arguments@.len() == f.parameters@.len(),
        forall|i: int|
            #![trigger n.value.arguments@[i]]
            0 <= i < f.parameters@.len() ==> {
                let arg = n.value.arguments@[i].value;
                let p = f.parameters@[i];
                &&& arg.id.value.id@ == p.id.value@
                &&& arg.is_private == (p.visibility == Some(pt::Visibility::Private))
                &&& converts_type(p.ty, arg.id.value._type)
            },
        n.value.signature.inputs@.len() == f.parameters@.len(),
        forall|i: int|
            #![trigger n.value.signature.inputs@[i]]
            0 <= i < f.parameters@.len() ==> converts_type(
                f.parameters@[i].ty,
                n.value.signature.inputs@[i],
            ),
        n.value.signature.outputs@.len() == f.returns@.len(),
        forall|i: int|
            #![trigger n.value.signature.outputs@[i]]
            0 <= i < f.returns@.len() ==> converts_type(f.returns@[i], n.value.signature.outputs@[i]),
        converts_statements(f.statements@, n.value.statements@),
{
    assert forall|i: int| 0 <= i < f.generics@.len() implies n.value.signature.generics@[i].value@
        == f.generics@[i].value@ && spans(n.value.signature.generics@[i], f.generics@[i].span) by {
        assert(converts_constant_generic(f.generics@[i], n.value.signature.generics@[i]));
    }
    assert forall|i: int|
        #![trigger n.value.arguments@[i]]
        0 <= i < f.parameters@.len() implies {
        let arg = n.value.arguments@[i].value;
        let p = f.parameters@[i];
        &&& arg.id.value.id@ == p.id.value@
        &&& arg.is_private == (p.visibility == Some(pt::Visibility::Private))
        &&& converts_type(p.ty, arg.id.value._type)
    } by {
        assert(converts_parameter(f.parameters@[i], n.value.arguments@[i]));
    }
    assert forall|i: int| 0 <= i < f.parameters@.len() implies converts_type(
        f.parameters@[i].ty,
        n.value.signature.inputs@[i],
    ) by {
        assert(converts_type(f.parameters@[i].ty, n.value.signature.inputs@[i]));
    }
}

/// A function declaration declares, under the function's name, the
/// function it becomes.
pub proof fn lemma_function_declaration(f: pt::FunctionDefinition, out: Seq<ut::SymbolDeclarationNode>)
    requires
        converts_symbol_declaration(pt::SymbolDeclaration::Function(f), out),
    ensures
        out.len() == 1,
        spans(out[0], f.span),
        out[0].value.id@ == f.id.value@,
        out[0].value.symbol matches ut::Symbol::Here(ut::SymbolDefinition::Function(fun))
            && converts_function(f, fun),
{
}

/// A struct declaration declares, under the struct's name, a struct with
/// the names of its generic parameters and its fields, each with its name
/// and type, all in the order written.
pub proof fn lemma_struct_declaration(s: pt::StructDefinition, out: Seq<ut::SymbolDeclarationNode>)
    requires
        converts_symbol_declaration(pt::SymbolDeclaration::Struct(s), out),
    ensures
        out.len() == 1,
        spans(out[0], s.span),
        out[0].value.id@ == s.id.value@,
        out[0].value.symbol matches ut::Symbol::Here(ut::SymbolDefinition::Struct(sd)) && spans(
            sd,
            s.span,
        ) && sd.value.generics@.len() == s.generics@.len() && (forall|i: int|
            #![trigger sd.value.generics@[i]]
            0 <= i < s.generics@.len() ==> sd.value.generics@[i].value@ == s.generics@[i].value@)
            && sd.value.fields@.len() == s.fields@.len() && forall|i: int|
            #![trigger sd.value.fields@[i]]
            0 <= i < s.fields@.len() ==> {
                let field = sd.value.fields@[i];
                &&& spans(field, s.fields@[i].span)
                &&& field.value.id@ == s.fields@[i].id.identifier.value@
                &&& converts_type(s.fields@[i].id.ty, field.value.ty)
            },
{
    if let ut::Symbol::Here(ut::SymbolDefinition::Struct(sd)) = out[0].value.symbol {
        assert forall|i: int| 0 <= i < s.generics@.len() implies sd.value.generics@[i].value@
            == s.generics@[i].value@ by {
            assert(converts_constant_generic(s.generics@[i], sd.value.generics@[i]));
        }
        assert forall|i: int|
            #![trigger sd.value.fields@[i]]
            0 <= i < s.fields@.len() implies {
            let field = sd.value.fields@[i];
            &&& spans(field, s.fields@[i].span)
            &&& field.value.id@ == s.fields@[i].id.identifier.value@
            &&& converts_type(s.fields@[i].id.ty, field.value.ty)
        } by {
            assert(converts_struct_field(s.fields@[i], sd.value.fields@[i]));
        }
    }
}

/// A constant declaration declares, under the constant's name, a constant
/// of its type with its expression.
pub proof fn lemma_constant_declaration(c: pt::ConstantDefinition, out: Seq<ut::SymbolDeclarationNode>)
    requires
        converts_symbol_declaration(pt::SymbolDeclaration::Constant(c), out),
    ensures
        out.len() == 1,
        spans(out[0], c.span),
        out[0].value.id@ == c.id.identifier.value@,
        out[0].value.symbol matches ut::Symbol::Here(ut::SymbolDefinition::Constant(cd)) && spans(
            cd,
            c.span,
        ) && converts_type(c.id.ty, cd.value.ty) && converts_expression(
            c.expression,
            cd.value.expression,
        ),
{
}

/// A type alias declares, under its name, the type it stands for, with the
/// names of its generic parameters in order.
pub proof fn lemma_type_declaration(t: pt::TypeDefinition, out: Seq<ut::SymbolDeclarationNode>)
    requires
        converts_symbol_declaration(pt::SymbolDeclaration::Type(t), out),
    ensures
        out.len() == 1,
        spans(out[0], t.span),
        out[0].value.id@ == t.id.value@,
        out[0].value.symbol matches ut::Symbol::Here(ut::SymbolDefinition::Type(td)) && spans(
            td,
            t.span,
        ) && converts_type(t.ty, td.value.ty) && td.value.generics@.len() == t.generics@.len()
            && forall|i: int|
            #![trigger td.value.generics@[i]]
            0 <= i < t.generics@.len() ==> td.value.generics@[i].value@ == t.generics@[i].value@,
{
    if let ut::Symbol::Here(ut::SymbolDefinition::Type(td)) = out[0].value.symbol {
        assert forall|i: int| 0 <= i < t.generics@.len() implies td.value.generics@[i].value@
            == t.generics@[i].value@ by {
            assert(converts_constant_generic(t.generics@[i], td.value.generics@[i]));
        }
    }
}

/// `import "source" as alias;` declares the main function of the module at
/// `source`, under the alias, or under `main` without one.
pub proof fn lemma_main_import(m: pt::MainImportDirective, out: Seq<ut::SymbolDeclarationNode>)
    requires
        converts_symbol_declaration(pt::SymbolDeclaration::Import(pt::ImportDirective::Main(m)), out),
    ensures
        out.len() == 1,
        spans(out[0], m.span),
        m.alias matches Some(a) ==> out[0].value.id@ == a.value@,
        m.alias is None ==> out[0].value.id@ == seq!['m', 'a', 'i', 'n'],
        out[0].value.symbol matches ut::Symbol::Here(ut::SymbolDefinition::Import(imp)) && spans(
            imp,
            m.span,
        ) && imp.value.source@ == m.source.value@ && imp.value.id.id@ == seq!['m', 'a', 'i', 'n']
            && (m.alias is None <==> imp.value.id.alias is None) && (m.alias matches Some(a)
            ==> imp.value.id.alias.unwrap()@ == a.value@),
{
    assert(main_name() == seq!['m', 'a', 'i', 'n']);
}

/// `from "source" import a as b, c;` declares each listed symbol of the
/// module at `source`, in order, under its alias or else its own name.
pub proof fn lemma_from_import(f: pt::FromImportDirective, out: Seq<ut::SymbolDeclarationNode>)
    requires
        converts_symbol_declaration(pt::SymbolDeclaration::Import(pt::ImportDirective::From(f)), out),
    ensures
        out.len() == f.symbols@.len(),
        forall|i: int|
            #![trigger out[i]]
            0 <= i < out.len() ==> {
                let s = f.symbols@[i];
                let name = if s.alias is Some {
                    s.alias.unwrap().value@
                } else {
                    s.id.value@
                };
                &&& spans(out[i], f.span)
                &&& out[i].value.id@ == name
                &&& out[i].value.symbol matches ut::Symbol::Here(ut::SymbolDefinition::Import(imp))
                    && imp.value.source@ == f.source.value@ && imp.value.id.id@ == s.id.value@
                    && (imp.value.id.alias matches Some(a) && a@ == name)
            },
{
    assert forall|i: int|
        #![trigger out[i]]
        0 <= i < out.len() implies {
        let s = f.symbols@[i];
        let name = if s.alias is Some {
            s.alias.unwrap().value@
        } else {
            s.id.value@
        };
        &&& spans(out[i], f.span)
        &&& out[i].value.id@ == name
        &&& out[i].value.symbol matches ut::Symbol::Here(ut::SymbolDefinition::Import(imp))
            && imp.value.source@ == f.source.value@ && imp.value.id.id@ == s.id.value@
            && (imp.value.id.alias matches Some(a) && a@ == name)
    } by {
        assert(converts_imported_symbol(f, f.symbols@[i], out[i]));
    }
}

/// A module holds, one after the other and in their order, the symbols
/// each declaration of the file declares: those of the `i`-th declaration
/// follow those of the declarations before it.
pub proof fn lemma_module_in_order(file: pt::File, m: ut::Module, i: int)
    requires
        converts_module(file, m),
        0 <= i < file.declarations@.len(),
    ensures
        total_symbol_count(file.declarations@.take(i + 1)) == total_symbol_count(
            file.declarations@.take(i),
        ) + symbol_count(file.declarations@[i]),
        total_symbol_count(file.declarations@.take(i + 1)) <= m.symbols@.len(),
        converts_symbol_declaration(
            file.declarations@[i],
            m.symbols@.subrange(
                total_symbol_count(file.declarations@.take(i)) as int,
                total_symbol_count(file.declarations@.take(i + 1)) as int,
            ),
        ),
{
    lemma_declarations_in_order(file.declarations@, m.symbols@, i);
}

proof fn lemma_declarations_in_order(
    ds: Seq<pt::SymbolDeclaration>,
    out: Seq<ut::SymbolDeclarationNode>,
    i: int,
)
    requires
        converts_symbol_declarations(ds, out),
        0 <= i < ds.len(),
    ensures
        total_symbol_count(ds.take(i + 1)) == total_symbol_count(ds.take(i)) + symbol_count(ds[i]),
        total_symbol_count(ds.take(i + 1)) <= out.len(),
        converts_symbol_declaration(
            ds[i],
            out.subrange(total_symbol_count(ds.take(i)) as int, total_symbol_count(ds.take(i + 1)) as int),
        ),
    decreases ds.len(),
{
    let n = ds.len();
    let k = symbol_count(ds.last());
    let init = ds.drop_last();
    let front = out.subrange(0, out.len() - k);
    assert(ds.take(i + 1).drop_last() =~= ds.take(i));
    lemma_symbols_length(init, front);
    if i == n - 1 {
        assert(ds.take(i) =~= init);
        assert(ds.take(i + 1) =~= ds);
    } else {
        lemma_declarations_in_order(init, front, i);
        assert(init.take(i) =~= ds.take(i));
        assert(init.take(i + 1) =~= ds.take(i + 1));
        assert(front.subrange(
            total_symbol_count(ds.take(i)) as int,
            total_symbol_count(ds.take(i + 1)) as int,
        ) =~= out.subrange(
            total_symbol_count(ds.take(i)) as int,
            total_symbol_count(ds.take(i + 1)) as int,
        ));
    }
}

} // verus!
