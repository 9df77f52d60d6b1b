//! The symbols of a module: imports, constants, structs, type aliases and
//! functions, and the module made of them.
use vstd::prelude::*;
use vstd::string::StringExecFns;
use crate::convert::{expression_from, statements_from, type_from, types_from, variable_from};
use crate::correspondence::{
    converts_expression, converts_statements, converts_type, converts_types, converts_variable,
};
use crate::parse_tree as pt;
use crate::untyped as ut;
use crate::parse_tree::Span;
use crate::untyped::{Node, spans};

verus! {

/// The name under which a module is imported when its main function is
/// imported.
pub open spec fn main_name() -> Seq<char> {
    seq!['m', 'a', 'i', 'n']
}

/// A generic parameter becomes its name, at its position.
pub open spec fn converts_constant_generic(g: pt::IdentifierExpression, n: ut::ConstantGenericNode) -> bool {
    spans(n, g.span) && n.value@ == g.value@
}

pub open spec fn converts_constant_generics(
    gs: Seq<pt::IdentifierExpression>,
    ns: Seq<ut::ConstantGenericNode>,
) -> bool {
    gs.len() == ns.len() && forall|i: int|
        0 <= i < gs.len() ==> #[trigger] converts_constant_generic(gs[i], ns[i])
}

/// A parameter is private exactly when it is declared `private`.
pub open spec fn converts_parameter(p: pt::Parameter, n: ut::ParameterNode) -> bool {
    &&& spans(n, p.span)
    &&& n.value.is_private == (p.visibility == Some(pt::Visibility::Private))
    &&& converts_variable(p.id, p.ty, n.value.id)
}

pub open spec fn converts_struct_field(f: pt::StructField, n: ut::StructDefinitionFieldNode) -> bool {
    &&& spans(n, f.span)
    &&& n.value.id@ == f.id.identifier.value@
    &&& converts_type(f.id.ty, n.value.ty)
}

/// A function: its parameters, its statements, and a signature made of its
/// generic parameters, the types of its parameters and its return types.
pub open spec fn converts_function(f: pt::FunctionDefinition, n: ut::FunctionNode) -> bool {
    let fun = n.value;
    let ps = f.parameters@;
    &&& spans(n, f.span)
    &&& fun.arguments@.len() == ps.len()
    &&& forall|i: int| 0 <= i < ps.len() ==> #[trigger] converts_parameter(ps[i], fun.arguments@[i])
    &&& converts_statements(f.statements@, fun.statements@)
    &&& converts_constant_generics(f.generics@, fun.signature.generics@)
    &&& fun.signature.inputs@.len() == ps.len()
    &&& forall|i: int| 0 <= i < ps.len() ==> #[trigger] converts_type(ps[i].ty, fun.signature.inputs@[i])
    &&& converts_types(f.returns@, fun.signature.outputs@)
}

pub open spec fn converts_alias(a: Option<pt::IdentifierExpression>, out: Option<String>) -> bool {
    match (a, out) {
        (None, None) => true,
        (Some(x), Some(y)) => y@ == x.value@,
        _ => false,
    }
}

/// The declaration of a symbol named `id`, standing at `span`.
pub open spec fn declares(n: ut::SymbolDeclarationNode, id: Seq<char>, span: Span) -> bool {
    spans(n, span) && n.value.id@ == id
}

/// An imported symbol, declared under its alias if it has one and under its
/// own name otherwise.
pub open spec fn converts_imported_symbol(
    f: pt::FromImportDirective,
    s: pt::ImportSymbol,
    n: ut::SymbolDeclarationNode,
) -> bool {
    let name = match s.alias {
        Some(a) => a.value@,
        None => s.id.value@,
    };
    &&& declares(n, name, f.span)
    &&& n.value.symbol matches ut::Symbol::Here(ut::SymbolDefinition::Import(imp)) && {
        &&& spans(imp, f.span)
        &&& imp.value.source@ == f.source.value@
        &&& imp.value.id.id@ == s.id.value@
        &&& imp.value.id.alias matches Some(a) && a@ == name
    }
}

/// How many symbols a declaration declares: one per imported symbol, and one
/// for any other declaration.
pub open spec fn symbol_count(d: pt::SymbolDeclaration) -> nat {
    match d {
        pt::SymbolDeclaration::Import(pt::ImportDirective::From(f)) => f.symbols@.len(),
        _ => 1,
    }
}

/// A declaration and the symbol declarations it becomes.
pub open spec fn converts_symbol_declaration(
    d: pt::SymbolDeclaration,
    out: Seq<ut::SymbolDeclarationNode>,
) -> bool {
    match d {
        pt::SymbolDeclaration::Import(pt::ImportDirective::Main(m)) => {
            let name = match m.alias {
                Some(a) => a.value@,
                None => main_name(),
            };
            &&& out.len() == 1
            &&& declares(out[0], name, m.span)
            &&& out[0].value.symbol matches ut::Symbol::Here(ut::SymbolDefinition::Import(imp)) && {
                &&& spans(imp, m.span)
                &&& imp.value.source@ == m.source.value@
                &&& imp.value.id.id@ == main_name()
                &&& converts_alias(m.alias, imp.value.id.alias)
            }
        },
        pt::SymbolDeclaration::Import(pt::ImportDirective::From(f)) => {
            &&& out.len() == f.symbols@.len()
            &&& forall|i: int|
                0 <= i < out.len() ==> #[trigger] converts_imported_symbol(f, f.symbols@[i], out[i])
        },
        pt::SymbolDeclaration::Constant(c) => {
            &&& out.len() == 1
            &&& declares(out[0], c.id.identifier.value@, c.span)
            &&& out[0].value.symbol matches ut::Symbol::Here(ut::SymbolDefinition::Constant(cd)) && {
                &&& spans(cd, c.span)
                &&& converts_type(c.id.ty, cd.value.ty)
                &&& converts_expression(c.expression, cd.value.expression)
            }
        },
        pt::SymbolDeclaration::Struct(s) => {
            &&& out.len() == 1
            &&& declares(out[0], s.id.value@, s.span)
            &&& out[0].value.symbol matches ut::Symbol::Here(ut::SymbolDefinition::Struct(sd)) && {
                &&& spans(sd, s.span)
                &&& converts_constant_generics(s.generics@, sd.value.generics@)
                &&& sd.value.fields@.len() == s.fields@.len()
                &&& forall|i: int|
                    0 <= i < s.fields@.len() ==> #[trigger] converts_struct_field(
                        s.fields@[i],
                        sd.value.fields@[i],
                    )
            }
        },
        pt::SymbolDeclaration::Type(t) => {
            &&& out.len() == 1
            &&& declares(out[0], t.id.value@, t.span)
            &&& out[0].value.symbol matches ut::Symbol::Here(ut::SymbolDefinition::Type(td)) && {
                &&& spans(td, t.span)
                &&& converts_constant_generics(t.generics@, td.value.generics@)
                &&& converts_type(t.ty, td.value.ty)
            }
        },
        pt::SymbolDeclaration::Function(f) => {
            &&& out.len() == 1
            &&& declares(out[0], f.id.value@, f.span)
            &&& out[0].value.symbol matches ut::Symbol::Here(ut::SymbolDefinition::Function(fun))
                && converts_function(f, fun)
        },
    }
}

/// Declarations become the symbol declarations each of them becomes, one
/// after the other.
pub open spec fn converts_symbol_declarations(
    ds: Seq<pt::SymbolDeclaration>,
    out: Seq<ut::SymbolDeclarationNode>,
) -> bool
    decreases ds.len(),
{
    if ds.len() == 0 {
        out.len() == 0
    } else {
        let k = symbol_count(ds.last());
        &&& k <= out.len()
        &&& converts_symbol_declarations(ds.drop_last(), out.subrange(0, out.len() - k))
        &&& converts_symbol_declaration(ds.last(), out.subrange(out.len() - k, out.len() as int))
    }
}

/// A file becomes the module of the symbols its declarations declare.
pub open spec fn converts_module(f: pt::File, m: ut::Module) -> bool {
    converts_symbol_declarations(f.declarations@, m.symbols@)
}

/// A generic parameter: its name, at its position.
pub fn constant_generic_from(g: &pt::IdentifierExpression) -> (n: ut::ConstantGenericNode)
    ensures
        converts_constant_generic(*g, n),
{
    Node::spanned(g.value.clone(), g.span)
}

fn constant_generics_from(gs: &Vec<pt::IdentifierExpression>) -> (r: Vec<ut::ConstantGenericNode>)
    ensures
        converts_constant_generics(gs@, r@),
{
    let mut out: Vec<ut::ConstantGenericNode> = Vec::new();
    let mut i: usize = 0;
    while i < gs.len()
        invariant
            i <= gs@.len(),
            out@.len() == i,
            forall|j: int| 0 <= j < i ==> #[trigger] converts_constant_generic(gs@[j], out@[j]),
        decreases gs@.len() - i,
    {
        out.push(constant_generic_from(&gs[i]));
        i += 1;
    }
    out
}

/// A parameter of a function.
pub fn parameter_from(p: &pt::Parameter) -> (n: ut::ParameterNode)
    ensures
        converts_parameter(*p, n),
{
    let private = match p.visibility {
        Some(pt::Visibility::Private) => true,
        Some(pt::Visibility::Public) => false,
        None => false,
    };
    let variable = variable_from(&p.id, &p.ty);
    Node::spanned(ut::Parameter::new(variable, private), p.span)
}

/// A field of a struct definition.
pub fn struct_field_from(f: &pt::StructField) -> (n: ut::StructDefinitionFieldNode)
    ensures
        converts_struct_field(*f, n),
{
    let ty = type_from(&f.id.ty);
    Node::spanned(ut::StructDefinitionField { id: f.id.identifier.value.clone(), ty }, f.span)
}

/// A function definition.
pub fn function_from(f: &pt::FunctionDefinition) -> (n: ut::FunctionNode)
    ensures
        converts_function(*f, n),
{
    let generics = constant_generics_from(&f.generics);
    let mut inputs: Vec<ut::UnresolvedTypeNode> = Vec::new();
    let mut arguments: Vec<ut::ParameterNode> = Vec::new();
    let mut i: usize = 0;
    while i < f.parameters.len()
        invariant
            i <= f.parameters@.len(),
            inputs@.len() == i,
            arguments@.len() == i,
            forall|j: int| 0 <= j < i ==> #[trigger] converts_type(f.parameters@[j].ty, inputs@[j]),
            forall|j: int|
                0 <= j < i ==> #[trigger] converts_parameter(f.parameters@[j], arguments@[j]),
        decreases f.parameters@.len() - i,
    {
        let p = &f.parameters[i];
        inputs.push(type_from(&p.ty));
        arguments.push(parameter_from(p));
        i += 1;
    }
    let outputs = types_from(&f.returns);
    let signature = ut::UnresolvedSignature::new().generics(generics).inputs(inputs).outputs(outputs);
    let statements = statements_from(&f.statements);
    Node::spanned(ut::Function { arguments, statements, signature }, f.span)
}

/// The declaration of the symbol `id` with `definition`, at `span`.
fn declaration_node(id: String, definition: ut::SymbolDefinition, span: pt::Span) -> (r:
    ut::SymbolDeclarationNode)
    ensures
        spans(r, span),
        r.value.id == id,
        r.value.symbol == ut::Symbol::Here(definition),
{
    Node::spanned(ut::SymbolDeclaration { id, symbol: ut::Symbol::Here(definition) }, span)
}

/// The declaration of a constant.
pub fn constant_definition_from(c: &pt::ConstantDefinition) -> (n: ut::SymbolDeclarationNode)
    ensures
        converts_symbol_declaration(pt::SymbolDeclaration::Constant(*c), seq![n]),
{
    let ty = type_from(&c.id.ty);
    let expression = expression_from(&c.expression);
    let cd = Node::spanned(ut::ConstantDefinition { ty, expression }, c.span);
    declaration_node(c.id.identifier.value.clone(), ut::SymbolDefinition::Constant(cd), c.span)
}

/// The declaration of a struct, with its generic parameters and fields.
pub fn struct_definition_from(s: &pt::StructDefinition) -> (n: ut::SymbolDeclarationNode)
    ensures
        converts_symbol_declaration(pt::SymbolDeclaration::Struct(*s), seq![n]),
{
    let generics = constant_generics_from(&s.generics);
    let mut fields: Vec<ut::StructDefinitionFieldNode> = Vec::new();
    let mut i: usize = 0;
    while i < s.fields.len()
        invariant
            i <= s.fields@.len(),
            fields@.len() == i,
            forall|j: int| 0 <= j < i ==> #[trigger] converts_struct_field(s.fields@[j], fields@[j]),
        decreases s.fields@.len() - i,
    {
        fields.push(struct_field_from(&s.fields[i]));
        i += 1;
    }
    let sd = Node::spanned(ut::StructDefinition { generics, fields }, s.span);
    declaration_node(s.id.value.clone(), ut::SymbolDefinition::Struct(sd), s.span)
}

/// The declaration of a type alias, with its generic parameters.
pub fn type_definition_from(t: &pt::TypeDefinition) -> (n: ut::SymbolDeclarationNode)
    ensures
        converts_symbol_declaration(pt::SymbolDeclaration::Type(*t), seq![n]),
{
    let generics = constant_generics_from(&t.generics);
    let ty = type_from(&t.ty);
    let td = Node::spanned(ut::TypeDefinition { generics, ty }, t.span);
    declaration_node(t.id.value.clone(), ut::SymbolDefinition::Type(td), t.span)
}

/// The declaration of a function.
pub fn function_definition_from(f: &pt::FunctionDefinition) -> (n: ut::SymbolDeclarationNode)
    ensures
        converts_symbol_declaration(pt::SymbolDeclaration::Function(*f), seq![n]),
{
    let fun = function_from(f);
    declaration_node(f.id.value.clone(), ut::SymbolDefinition::Function(fun), f.span)
}

fn single(n: ut::SymbolDeclarationNode) -> (r: Vec<ut::SymbolDeclarationNode>)
    ensures
        r@ == seq![n],
{
    let mut r: Vec<ut::SymbolDeclarationNode> = Vec::new();
    r.push(n);
    r
}

/// The symbols an import declares: the main function of a module, or each
/// listed symbol of a module.
pub fn import_directive_to_symbol_vec(import: &pt::ImportDirective) -> (r: Vec<ut::SymbolDeclarationNode>)
    ensures
        converts_symbol_declaration(pt::SymbolDeclaration::Import(*import), r@),
{
    match import {
        pt::ImportDirective::Main(m) => {
            let main = String::from_str("main");
            proof {
                reveal_strlit("main");
            }
            assert(main@ == main_name());
            let alias = match &m.alias {
                Some(a) => Some(a.value.clone()),
                None => None,
            };
            let id = match &alias {
                Some(a) => a.clone(),
                None => main.clone(),
            };
            let imp = ut::CanonicalImport {
                source: m.source.value.clone(),
                id: ut::SymbolIdentifier { id: main, alias },
            };
            single(
                declaration_node(id, ut::SymbolDefinition::Import(Node::spanned(imp, m.span)), m.span),
            )
        },
        pt::ImportDirective::From(f) => {
            let mut out: Vec<ut::SymbolDeclarationNode> = Vec::new();
            let mut i: usize = 0;
            while i < f.symbols.len()
                invariant
                    i <= f.symbols@.len(),
                    out@.len() == i,
                    forall|j: int|
                        0 <= j < i ==> #[trigger] converts_imported_symbol(*f, f.symbols@[j], out@[j]),
                decreases f.symbols@.len() - i,
            {
                let s = &f.symbols[i];
                let alias = match &s.alias {
                    Some(a) => a.value.clone(),
                    None => s.id.value.clone(),
                };
                let imp = ut::CanonicalImport {
                    source: f.source.value.clone(),
                    id: ut::SymbolIdentifier { id: s.id.value.clone(), alias: Some(alias.clone()) },
                };
                let symbol = ut::Symbol::Here(
                    ut::SymbolDefinition::Import(Node::spanned(imp, f.span)),
                );
                out.push(Node::spanned(ut::SymbolDeclaration { id: alias, symbol }, f.span));
                i += 1;
            }
            assert(forall|j: int|
                0 <= j < out@.len() ==> converts_imported_symbol(*f, f.symbols@[j], out@[j]));
            out
        },
    }
}

/// The symbols a declaration declares.
pub fn symbols_from_declaration(d: &pt::SymbolDeclaration) -> (r: Vec<ut::SymbolDeclarationNode>)
    ensures
        converts_symbol_declaration(*d, r@),
        r@.len() == symbol_count(*d),
{
    match d {
        pt::SymbolDeclaration::Import(i) => import_directive_to_symbol_vec(i),
        pt::SymbolDeclaration::Constant(c) => single(constant_definition_from(c)),
        pt::SymbolDeclaration::Struct(s) => single(struct_definition_from(s)),
        pt::SymbolDeclaration::Type(t) => single(type_definition_from(t)),
        pt::SymbolDeclaration::Function(f) => single(function_definition_from(f)),
    }
}

/// The module of the symbols that the declarations of a file declare, in
/// order.
pub fn module_from(file: &pt::File) -> (m: ut::Module)
    ensures
        converts_module(*file, m),
{
    let ds = &file.declarations;
    let mut out: Vec<ut::SymbolDeclarationNode> = Vec::new();
    let mut i: usize = 0;
    assert(ds@.take(0) =~= Seq::<pt::SymbolDeclaration>::empty());
    while i < ds.len()
        invariant
            i <= ds@.len(),
            converts_symbol_declarations(ds@.take(i as int), out@),
        decreases ds@.len() - i,
    {
        let mut next = symbols_from_declaration(&ds[i]);
        let ghost before = out@;
        let ghost added = next@;
        out.append(&mut next);
        proof {
            let taken = ds@.take(i + 1);
            assert(taken.drop_last() =~= ds@.take(i as int));
            assert(taken.last() == ds@[i as int]);
            let k = symbol_count(ds@[i as int]);
            assert(out@.subrange(0, out@.len() - k) =~= before);
            assert(out@.subrange(out@.len() - k, out@.len() as int) =~= added);
        }
        i += 1;
    }
    assert(ds@.take(ds@.len() as int) =~= ds@);
    ut::Module { symbols: out }
}

impl ut::Module {
    /// The module of the symbols that the declarations of `file` declare.
    pub fn from(file: pt::File) -> (m: ut::Module)
        ensures
            converts_module(file, m),
    {
        module_from(&file)
    }
}

} // verus!
