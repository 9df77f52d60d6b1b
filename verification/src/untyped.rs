//! The untyped abstract syntax tree of a ZoKrates module.
//!
//! Every node records where in the source it comes from; two nodes are
//! equal when their values are, wherever they stand in the source.
use vstd::prelude::*;
use vstd::std_specs::cmp::{PartialEqSpec, PartialEqSpecImpl};
use crate::number::BigNat;
use crate::parse_tree::{Position, Span};

verus! {

/// A value together with the positions of its first and last character in
/// the source.
#[derive(Debug)]
pub struct Node<T> {
    pub start: Position,
    pub end: Position,
    pub value: T,
}

/// The node holds `value` at the positions of `span`.
pub open spec fn spans<T>(n: Node<T>, span: Span) -> bool {
    n.start == span.start && n.end == span.end
}

impl<T> Node<T> {
    pub fn new(start: Position, end: Position, value: T) -> (r: Node<T>)
        ensures
            r.start == start,
            r.end == end,
            r.value == value,
    {
        Node { start, end, value }
    }

    /// `value` at the positions of `span`.
    pub fn spanned(value: T, span: Span) -> (r: Node<T>)
        ensures
            spans(r, span),
            r.start == span.start,
            r.end == span.end,
            r.value == value,
    {
        Node { start: span.start, end: span.end, value }
    }

    /// `value` at a made-up position, line 42 and column 42, for values
    /// that do not come from a source.
    pub fn mock(value: T) -> (r: Node<T>)
        ensures
            r.value == value,
            r.start == (Position { line: 42, col: 42 }),
            r.end == (Position { line: 42, col: 42 }),
    {
        let p = Position { line: 42, col: 42 };
        Node { start: p, end: p, value }
    }
}

impl<T: PartialEq> PartialEq for Node<T> {
    fn eq(&self, other: &Self) -> (r: bool) {
        self.value == other.value
    }
}

impl<T: PartialEq> PartialEqSpecImpl for Node<T> {
    open spec fn obeys_eq_spec() -> bool {
        T::obeys_eq_spec()
    }

    open spec fn eq_spec(&self, other: &Self) -> bool {
        self.value.eq_spec(&other.value)
    }
}

pub type Identifier = String;

#[derive(Debug, PartialEq)]
pub struct Module {
    pub symbols: Vec<SymbolDeclarationNode>,
}

#[derive(Debug, PartialEq)]
pub struct SymbolIdentifier {
    pub id: Identifier,
    pub alias: Option<Identifier>,
}

/// An import of the symbol `id` of the module at `source`.
#[derive(Debug, PartialEq)]
pub struct CanonicalImport {
    pub source: String,
    pub id: SymbolIdentifier,
}

pub type CanonicalImportNode = Node<CanonicalImport>;

#[derive(Debug, PartialEq)]
pub enum SymbolDefinition {
    Import(CanonicalImportNode),
    Struct(StructDefinitionNode),
    Constant(ConstantDefinitionNode),
    Type(TypeDefinitionNode),
    Function(FunctionNode),
}

#[derive(Debug, PartialEq)]
pub enum Symbol {
    Here(SymbolDefinition),
}

#[derive(Debug, PartialEq)]
pub struct SymbolDeclaration {
    pub id: Identifier,
    pub symbol: Symbol,
}

pub type SymbolDeclarationNode = Node<SymbolDeclaration>;

pub type ConstantGenericNode = Node<Identifier>;

#[derive(Debug, PartialEq)]
pub struct StructDefinition {
    pub generics: Vec<ConstantGenericNode>,
    pub fields: Vec<StructDefinitionFieldNode>,
}

pub type StructDefinitionNode = Node<StructDefinition>;

#[derive(Debug, PartialEq)]
pub struct StructDefinitionField {
    pub id: Identifier,
    pub ty: UnresolvedTypeNode,
}

pub type StructDefinitionFieldNode = Node<StructDefinitionField>;

#[derive(Debug, PartialEq)]
pub struct ConstantDefinition {
    pub ty: UnresolvedTypeNode,
    pub expression: ExpressionNode,
}

pub type ConstantDefinitionNode = Node<ConstantDefinition>;

#[derive(Debug, PartialEq)]
pub struct TypeDefinition {
    pub generics: Vec<ConstantGenericNode>,
    pub ty: UnresolvedTypeNode,
}

pub type TypeDefinitionNode = Node<TypeDefinition>;

#[derive(Debug, PartialEq)]
pub struct UnresolvedSignature {
    pub generics: Vec<ConstantGenericNode>,
    pub inputs: Vec<UnresolvedTypeNode>,
    pub outputs: Vec<UnresolvedTypeNode>,
}

impl UnresolvedSignature {
    pub fn new() -> (r: UnresolvedSignature)
        ensures
            r.generics@.len() == 0,
            r.inputs@.len() == 0,
            r.outputs@.len() == 0,
    {
        UnresolvedSignature { generics: Vec::new(), inputs: Vec::new(), outputs: Vec::new() }
    }

    pub fn generics(self, generics: Vec<ConstantGenericNode>) -> (r: UnresolvedSignature)
        ensures
            r == (UnresolvedSignature { generics, ..self }),
    {
        UnresolvedSignature { generics, ..self }
    }

    pub fn inputs(self, inputs: Vec<UnresolvedTypeNode>) -> (r: UnresolvedSignature)
        ensures
            r == (UnresolvedSignature { inputs, ..self }),
    {
        UnresolvedSignature { inputs, ..self }
    }

    pub fn outputs(self, outputs: Vec<UnresolvedTypeNode>) -> (r: UnresolvedSignature)
        ensures
            r == (UnresolvedSignature { outputs, ..self }),
    {
        UnresolvedSignature { outputs, ..self }
    }
}

#[derive(Debug, PartialEq)]
pub struct Function {
    pub arguments: Vec<ParameterNode>,
    pub statements: Vec<StatementNode>,
    pub signature: UnresolvedSignature,
}

pub type FunctionNode = Node<Function>;

#[derive(Debug, PartialEq)]
pub struct Variable {
    pub id: Identifier,
    pub _type: UnresolvedTypeNode,
}

pub type VariableNode = Node<Variable>;

impl Variable {
    pub fn new(id: Identifier, ty: UnresolvedTypeNode) -> (r: Variable)
        ensures
            r.id == id,
            r._type == ty,
    {
        Variable { id, _type: ty }
    }
}

#[derive(Debug, PartialEq)]
pub struct Parameter {
    pub id: VariableNode,
    pub is_private: bool,
}

pub type ParameterNode = Node<Parameter>;

impl Parameter {
    pub fn new(id: VariableNode, is_private: bool) -> (r: Parameter)
        ensures
            r.id == id,
            r.is_private == is_private,
    {
        Parameter { id, is_private }
    }

    pub fn private(id: VariableNode) -> (r: Parameter)
        ensures
            r.id == id,
            r.is_private,
    {
        Parameter { id, is_private: true }
    }

    pub fn public(id: VariableNode) -> (r: Parameter)
        ensures
            r.id == id,
            !r.is_private,
    {
        Parameter { id, is_private: false }
    }
}

#[derive(Debug, PartialEq)]
pub enum Statement {
    Return(ExpressionListNode),
    Declaration(VariableNode),
    Definition(AssigneeNode, ExpressionNode),
    Assertion(ExpressionNode, Option<String>),
    For(VariableNode, ExpressionNode, ExpressionNode, Vec<StatementNode>),
    MultipleDefinition(Vec<AssigneeNode>, ExpressionNode),
}

pub type StatementNode = Node<Statement>;

#[derive(Debug, PartialEq)]
pub enum Assignee {
    Identifier(Identifier),
    Select(Box<AssigneeNode>, Box<RangeOrExpression>),
    Member(Box<AssigneeNode>, Box<Identifier>),
    Element(Box<AssigneeNode>, u32),
}

pub type AssigneeNode = Node<Assignee>;

#[derive(Debug, PartialEq)]
pub enum RangeOrExpression {
    Range(RangeNode),
    Expression(ExpressionNode),
}

#[derive(Debug, PartialEq)]
pub enum SpreadOrExpression {
    Spread(SpreadNode),
    Expression(ExpressionNode),
}

#[derive(Debug, PartialEq)]
pub struct Spread {
    pub expression: ExpressionNode,
}

pub type SpreadNode = Node<Spread>;

#[derive(Debug, PartialEq)]
pub struct Range {
    pub from: Option<ExpressionNode>,
    pub to: Option<ExpressionNode>,
}

pub type RangeNode = Node<Range>;

#[derive(Debug, Clone, Copy, PartialEq, Eq, Structural)]
pub enum ConditionalKind {
    IfElse,
    Ternary,
}

#[derive(Debug, PartialEq)]
pub struct ConditionalExpression {
    pub condition: Box<ExpressionNode>,
    pub consequence_statements: Vec<StatementNode>,
    pub consequence: Box<ExpressionNode>,
    pub alternative_statements: Vec<StatementNode>,
    pub alternative: Box<ExpressionNode>,
    pub kind: ConditionalKind,
}

#[derive(Debug, PartialEq)]
pub enum Expression {
    IntConstant(BigNat),
    FieldConstant(BigNat),
    BooleanConstant(bool),
    U8Constant(u8),
    U16Constant(u16),
    U32Constant(u32),
    U64Constant(u64),
    Identifier(Identifier),
    Add(Box<ExpressionNode>, Box<ExpressionNode>),
    Sub(Box<ExpressionNode>, Box<ExpressionNode>),
    Mult(Box<ExpressionNode>, Box<ExpressionNode>),
    Div(Box<ExpressionNode>, Box<ExpressionNode>),
    Rem(Box<ExpressionNode>, Box<ExpressionNode>),
    Pow(Box<ExpressionNode>, Box<ExpressionNode>),
    Neg(Box<ExpressionNode>),
    Pos(Box<ExpressionNode>),
    Conditional(Box<ConditionalExpression>),
    FunctionCall(Box<ExpressionNode>, Option<Vec<Option<ExpressionNode>>>, Vec<ExpressionNode>),
    Lt(Box<ExpressionNode>, Box<ExpressionNode>),
    Le(Box<ExpressionNode>, Box<ExpressionNode>),
    Eq(Box<ExpressionNode>, Box<ExpressionNode>),
    Ge(Box<ExpressionNode>, Box<ExpressionNode>),
    Gt(Box<ExpressionNode>, Box<ExpressionNode>),
    And(Box<ExpressionNode>, Box<ExpressionNode>),
    Not(Box<ExpressionNode>),
    InlineTuple(Vec<ExpressionNode>),
    InlineArray(Vec<SpreadOrExpression>),
    InlineStruct(String, Vec<(Identifier, ExpressionNode)>),
    ArrayInitializer(Box<ExpressionNode>, Box<ExpressionNode>),
    Select(Box<ExpressionNode>, Box<RangeOrExpression>),
    Element(Box<ExpressionNode>, u32),
    Member(Box<ExpressionNode>, Box<Identifier>),
    Or(Box<ExpressionNode>, Box<ExpressionNode>),
    BitXor(Box<ExpressionNode>, Box<ExpressionNode>),
    BitAnd(Box<ExpressionNode>, Box<ExpressionNode>),
    BitOr(Box<ExpressionNode>, Box<ExpressionNode>),
    LeftShift(Box<ExpressionNode>, Box<ExpressionNode>),
    RightShift(Box<ExpressionNode>, Box<ExpressionNode>),
}

pub type ExpressionNode = Node<Expression>;

#[derive(Debug, PartialEq)]
pub struct ExpressionList {
    pub expressions: Vec<ExpressionNode>,
}

pub type ExpressionListNode = Node<ExpressionList>;

#[derive(Debug, PartialEq)]
pub enum UnresolvedType {
    FieldElement,
    Boolean,
    Uint(usize),
    Array(Box<UnresolvedTypeNode>, ExpressionNode),
    Tuple(Vec<UnresolvedTypeNode>),
    User(String, Option<Vec<Option<ExpressionNode>>>),
}

pub type UnresolvedTypeNode = Node<UnresolvedType>;

} // verus!
