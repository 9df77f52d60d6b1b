//! The parse tree of a ZoKrates source file, as the grammar produces it.
//!
//! Every node carries the `Span` of source text it was parsed from, given as
//! the line and column of its first and last position. Nodes whose text the
//! conversion reads (identifiers, numbers, strings) carry that text as well.
//! Number and boolean literals can only be built through constructors that
//! check what the grammar guarantees of them.
use vstd::prelude::*;
use vstd::string::StrSliceExecFns;
use crate::number::{check_decimal, check_hex, decimal_value, hex_value, is_decimal, is_hex, parse_u64};

verus! {

/// A line and column in the source text.
#[derive(Debug, Clone, Copy, PartialEq, Eq, Structural)]
pub struct Position {
    pub line: usize,
    pub col: usize,
}

/// The stretch of source text a node was parsed from.
#[derive(Debug, Clone, Copy, PartialEq, Eq, Structural)]
pub struct Span {
    pub start: Position,
    pub end: Position,
}

/// A whole source file.
#[derive(Debug)]
pub struct File {
    pub declarations: Vec<SymbolDeclaration>,
    pub span: Span,
}

#[derive(Debug)]
pub enum SymbolDeclaration {
    Import(ImportDirective),
    Constant(ConstantDefinition),
    Struct(StructDefinition),
    Type(TypeDefinition),
    Function(FunctionDefinition),
}

#[derive(Debug)]
pub enum ImportDirective {
    Main(MainImportDirective),
    From(FromImportDirective),
}

/// `import "source" as alias;`
#[derive(Debug)]
pub struct MainImportDirective {
    pub source: AnyString,
    pub alias: Option<IdentifierExpression>,
    pub span: Span,
}

/// `from "source" import a as b, c;`
#[derive(Debug)]
pub struct FromImportDirective {
    pub source: AnyString,
    pub symbols: Vec<ImportSymbol>,
    pub span: Span,
}

#[derive(Debug)]
pub struct ImportSymbol {
    pub id: IdentifierExpression,
    pub alias: Option<IdentifierExpression>,
    pub span: Span,
}

/// The text between the quotes of a string in the source.
#[derive(Debug, Clone)]
pub struct AnyString {
    pub value: String,
    pub span: Span,
}

#[derive(Debug)]
pub struct StructDefinition {
    pub id: IdentifierExpression,
    pub generics: Vec<IdentifierExpression>,
    pub fields: Vec<StructField>,
    pub span: Span,
}

#[derive(Debug)]
pub struct StructField {
    pub id: TypedIdentifier,
    pub span: Span,
}

#[derive(Debug)]
pub struct ConstantDefinition {
    pub id: TypedIdentifier,
    pub expression: Expression,
    pub span: Span,
}

#[derive(Debug)]
pub struct TypeDefinition {
    pub id: IdentifierExpression,
    pub generics: Vec<IdentifierExpression>,
    pub ty: Type,
    pub span: Span,
}

#[derive(Debug)]
pub struct FunctionDefinition {
    pub id: IdentifierExpression,
    pub generics: Vec<IdentifierExpression>,
    pub parameters: Vec<Parameter>,
    pub returns: Vec<Type>,
    pub statements: Vec<Statement>,
    pub span: Span,
}

#[derive(Debug, Clone, Copy, PartialEq, Eq, Structural)]
pub enum Visibility {
    Public,
    Private,
}

#[derive(Debug)]
pub struct Parameter {
    pub visibility: Option<Visibility>,
    pub ty: Type,
    pub id: IdentifierExpression,
    pub span: Span,
}

#[derive(Debug)]
pub enum Statement {
    Return(ReturnStatement),
    Definition(DefinitionStatement),
    Assertion(AssertionStatement),
    Iteration(IterationStatement),
}

/// `lhs_1, .., lhs_n = expression;`
#[derive(Debug)]
pub struct DefinitionStatement {
    pub lhs: Vec<TypedIdentifierOrAssignee>,
    pub expression: Expression,
    pub span: Span,
}

#[derive(Debug)]
pub enum TypedIdentifierOrAssignee {
    Assignee(Assignee),
    TypedIdentifier(TypedIdentifier),
}

#[derive(Debug)]
pub struct TypedIdentifier {
    pub ty: Type,
    pub identifier: IdentifierExpression,
    pub span: Span,
}

/// An identifier followed by accesses, as in `a[2].b`.
#[derive(Debug)]
pub struct Assignee {
    pub id: IdentifierExpression,
    pub accesses: Vec<AssigneeAccess>,
    pub span: Span,
}

#[derive(Debug)]
pub enum AssigneeAccess {
    Select(ArrayAccess),
    Dot(DotAccess),
}

#[derive(Debug)]
pub struct AssertionStatement {
    pub expression: Expression,
    pub message: Option<AnyString>,
    pub span: Span,
}

/// `for ty id in from..to { statements }`
#[derive(Debug)]
pub struct IterationStatement {
    pub id: TypedIdentifier,
    pub from: Expression,
    pub to: Expression,
    pub statements: Vec<Statement>,
    pub span: Span,
}

#[derive(Debug)]
pub struct ReturnStatement {
    pub expressions: Vec<Expression>,
    pub span: Span,
}

#[derive(Debug)]
pub enum Expression {
    Binary(BinaryExpression),
    Ternary(TernaryExpression),
    IfElse(IfElseExpression),
    Literal(LiteralExpression),
    Identifier(IdentifierExpression),
    Postfix(PostfixExpression),
    InlineArray(InlineArrayExpression),
    InlineTuple(InlineTupleExpression),
    InlineStruct(InlineStructExpression),
    ArrayInitializer(ArrayInitializerExpression),
    Unary(UnaryExpression),
}

#[derive(Debug, Clone, Copy, PartialEq, Eq, Structural)]
pub enum BinaryOperator {
    BitXor,
    BitAnd,
    BitOr,
    RightShift,
    LeftShift,
    Or,
    And,
    Add,
    Sub,
    Mul,
    Div,
    Rem,
    Eq,
    NotEq,
    Lt,
    Gt,
    Lte,
    Gte,
    Pow,
}

#[derive(Debug)]
pub struct BinaryExpression {
    pub op: BinaryOperator,
    pub left: Box<Expression>,
    pub right: Box<Expression>,
    pub span: Span,
}

/// `condition ? consequence : alternative`
#[derive(Debug)]
pub struct TernaryExpression {
    pub condition: Box<Expression>,
    pub consequence: Box<Expression>,
    pub alternative: Box<Expression>,
    pub span: Span,
}

/// `if condition { statements; consequence } else { statements; alternative }`
#[derive(Debug)]
pub struct IfElseExpression {
    pub condition: Box<Expression>,
    pub consequence_statements: Vec<Statement>,
    pub consequence: Box<Expression>,
    pub alternative_statements: Vec<Statement>,
    pub alternative: Box<Expression>,
    pub span: Span,
}

/// `...expression` inside an inline array.
#[derive(Debug)]
pub struct Spread {
    pub expression: Expression,
    pub span: Span,
}

/// `from..to`, either bound may be missing.
#[derive(Debug)]
pub struct Range {
    pub from: Option<Expression>,
    pub to: Option<Expression>,
    pub span: Span,
}

#[derive(Debug)]
pub enum RangeOrExpression {
    Range(Range),
    Expression(Expression),
}

#[derive(Debug)]
pub enum SpreadOrExpression {
    Spread(Spread),
    Expression(Expression),
}

#[derive(Debug)]
pub struct InlineArrayExpression {
    pub expressions: Vec<SpreadOrExpression>,
    pub span: Span,
}

#[derive(Debug)]
pub struct InlineTupleExpression {
    pub elements: Vec<Expression>,
    pub span: Span,
}

/// `Ty { member: expression, .. }`
#[derive(Debug)]
pub struct InlineStructExpression {
    pub ty: IdentifierExpression,
    pub members: Vec<InlineStructMember>,
    pub span: Span,
}

#[derive(Debug)]
pub struct InlineStructMember {
    pub id: IdentifierExpression,
    pub expression: Expression,
    pub span: Span,
}

/// `[value; count]`
#[derive(Debug)]
pub struct ArrayInitializerExpression {
    pub value: Box<Expression>,
    pub count: Box<Expression>,
    pub span: Span,
}

#[derive(Debug, Clone, Copy, PartialEq, Eq, Structural)]
pub enum UnaryOperator {
    Not,
    Neg,
    Pos,
}

#[derive(Debug)]
pub struct UnaryExpression {
    pub op: UnaryOperator,
    pub expression: Box<Expression>,
    pub span: Span,
}

/// A base expression followed by calls, selections and member accesses,
/// as in `a(34)[42].b`.
#[derive(Debug)]
pub struct PostfixExpression {
    pub base: Box<Expression>,
    pub accesses: Vec<Access>,
    pub span: Span,
}

#[derive(Debug)]
pub enum Access {
    Call(CallAccess),
    Select(ArrayAccess),
    Dot(DotAccess),
}

/// `::<generics>(arguments)`
#[derive(Debug)]
pub struct CallAccess {
    pub explicit_generics: Option<ExplicitGenerics>,
    pub arguments: Arguments,
    pub span: Span,
}

#[derive(Debug)]
pub struct ExplicitGenerics {
    pub values: Vec<ConstantGenericValue>,
    pub span: Span,
}

#[derive(Debug)]
pub enum ConstantGenericValue {
    Value(LiteralExpression),
    Identifier(IdentifierExpression),
    Underscore,
}

#[derive(Debug)]
pub struct Arguments {
    pub expressions: Vec<Expression>,
    pub span: Span,
}

/// `[expression]` or `[from..to]`
#[derive(Debug)]
pub struct ArrayAccess {
    pub expression: RangeOrExpression,
    pub span: Span,
}

#[derive(Debug)]
pub enum IdentifierOrDecimal {
    Identifier(IdentifierExpression),
    Decimal(DecimalNumber),
}

/// `.member` or `.index`; a tuple index fits in a `u32`.
#[derive(Debug)]
pub struct DotAccess {
    pub(crate) inner: IdentifierOrDecimal,
    pub(crate) span: Span,
}

#[derive(Debug)]
pub enum LiteralExpression {
    DecimalLiteral(DecimalLiteralExpression),
    BooleanLiteral(BooleanLiteralExpression),
    HexLiteral(HexLiteralExpression),
}

/// `true` or `false`.
#[derive(Debug)]
pub struct BooleanLiteralExpression {
    pub(crate) value: String,
    pub(crate) span: Span,
}

#[derive(Debug, Clone, Copy, PartialEq, Eq, Structural)]
pub enum DecimalSuffix {
    U8,
    U16,
    U32,
    U64,
    Field,
}

/// A decimal number with an optional type suffix, as in `42u8`; a number
/// with a `u8`, `u16`, `u32` or `u64` suffix fits in that type.
#[derive(Debug)]
pub struct DecimalLiteralExpression {
    pub(crate) value: DecimalNumber,
    pub(crate) suffix: Option<DecimalSuffix>,
    pub(crate) span: Span,
}

/// A nonempty string of decimal digits.
#[derive(Debug)]
pub struct DecimalNumber {
    pub(crate) value: String,
    pub(crate) span: Span,
}

/// A hexadecimal literal `0x...`, whose variant names its type (the grammar
/// picks it by the number of digits); its digits fit in that type.
#[derive(Debug)]
pub struct HexLiteralExpression {
    pub(crate) value: HexNumberExpression,
    pub(crate) span: Span,
}

#[derive(Debug, Clone)]
pub enum HexNumberExpression {
    U8(HexNumber),
    U16(HexNumber),
    U32(HexNumber),
    U64(HexNumber),
}

/// The digits of a hexadecimal literal, without the `0x` prefix.
#[derive(Debug, Clone)]
pub struct HexNumber {
    pub value: String,
    pub span: Span,
}

#[derive(Debug, Clone)]
pub struct IdentifierExpression {
    pub value: String,
    pub span: Span,
}

#[derive(Debug)]
pub enum Type {
    Basic(BasicType),
    Array(ArrayType),
    Struct(StructType),
    Tuple(TupleType),
}

#[derive(Debug, Clone, Copy, PartialEq, Eq, Structural)]
pub enum BasicType {
    Field(Span),
    Boolean(Span),
    U8(Span),
    U16(Span),
    U32(Span),
    U64(Span),
}

/// `ty[outer_dimension][inner_dimensions[0]]..`: the grammar gives an array
/// type at least one dimension, the first of which is the outermost.
#[derive(Debug)]
pub struct ArrayType {
    pub ty: BasicOrStructOrTupleType,
    pub outer_dimension: Box<Expression>,
    pub inner_dimensions: Vec<Expression>,
    pub span: Span,
}

#[derive(Debug)]
pub enum BasicOrStructOrTupleType {
    Basic(BasicType),
    Struct(StructType),
    Tuple(TupleType),
}

/// `Name` or `Name<generics>`
#[derive(Debug)]
pub struct StructType {
    pub id: IdentifierExpression,
    pub explicit_generics: Option<ExplicitGenerics>,
    pub span: Span,
}

#[derive(Debug)]
pub struct TupleType {
    pub elements: Vec<Type>,
    pub span: Span,
}

/// Whether a decimal number of value `v` fits the type its suffix names; a
/// field element or an unsuffixed number may be of any size.
pub open spec fn fits_suffix(suffix: Option<DecimalSuffix>, v: nat) -> bool {
    match suffix {
        Some(DecimalSuffix::U8) => v <= u8::MAX,
        Some(DecimalSuffix::U16) => v <= u16::MAX,
        Some(DecimalSuffix::U32) => v <= u32::MAX,
        Some(DecimalSuffix::U64) => v <= u64::MAX,
        _ => true,
    }
}

/// The digits of a hexadecimal literal and the largest value of the type it
/// has.
pub open spec fn hex_number_bound(h: HexNumberExpression) -> (HexNumber, nat) {
    match h {
        HexNumberExpression::U8(n) => (n, u8::MAX as nat),
        HexNumberExpression::U16(n) => (n, u16::MAX as nat),
        HexNumberExpression::U32(n) => (n, u32::MAX as nat),
        HexNumberExpression::U64(n) => (n, u64::MAX as nat),
    }
}

pub open spec fn is_boolean_text(s: Seq<char>) -> bool {
    s == seq!['t', 'r', 'u', 'e'] || s == seq!['f', 'a', 'l', 's', 'e']
}

fn check_boolean_text(s: &str) -> (r: bool)
    ensures
        r == is_boolean_text(s@),
{
    let n = s.unicode_len();
    if n == 4 {
        let r = s.get_char(0) == 't' && s.get_char(1) == 'r' && s.get_char(2) == 'u' && s.get_char(3)
            == 'e';
        proof {
            if r {
                assert(s@ =~= seq!['t', 'r', 'u', 'e']);
            }
        }
        r
    } else if n == 5 {
        let r = s.get_char(0) == 'f' && s.get_char(1) == 'a' && s.get_char(2) == 'l' && s.get_char(3)
            == 's' && s.get_char(4) == 'e';
        proof {
            if r {
                assert(s@ =~= seq!['f', 'a', 'l', 's', 'e']);
            }
        }
        r
    } else {
        false
    }
}

impl DecimalNumber {
    #[verifier::type_invariant]
    spec fn digits_are_decimal(self) -> bool {
        is_decimal(self.value@)
    }

    pub closed spec fn spec_digits(self) -> Seq<char> {
        self.value@
    }

    pub closed spec fn spec_span(self) -> Span {
        self.span
    }

    /// The number with the digits `value`, if they are a nonempty string of
    /// decimal digits.
    pub fn new(value: String, span: Span) -> (r: Option<DecimalNumber>)
        ensures
            r is Some <==> is_decimal(value@),
            r matches Some(d) ==> d.spec_digits() == value@ && d.spec_span() == span,
    {
        if check_decimal(value.as_str()) {
            Some(DecimalNumber { value, span })
        } else {
            None
        }
    }

    pub fn digits(&self) -> (r: &str)
        ensures
            r@ == self.spec_digits(),
            is_decimal(r@),
    {
        proof {
            use_type_invariant(self);
        }
        self.value.as_str()
    }

    pub fn span(&self) -> (r: Span)
        ensures
            r == self.spec_span(),
    {
        self.span
    }
}

impl DecimalLiteralExpression {
    #[verifier::type_invariant]
    spec fn suffix_fits(self) -> bool {
        fits_suffix(self.suffix, decimal_value(self.value.value@))
    }

    pub closed spec fn spec_number(self) -> DecimalNumber {
        self.value
    }

    pub closed spec fn spec_suffix(self) -> Option<DecimalSuffix> {
        self.suffix
    }

    pub closed spec fn spec_span(self) -> Span {
        self.span
    }

    /// The literal `value` followed by `suffix`, if its value fits the type
    /// the suffix names.
    pub fn new(value: DecimalNumber, suffix: Option<DecimalSuffix>, span: Span) -> (r: Option<
        DecimalLiteralExpression,
    >)
        ensures
            r is Some <==> fits_suffix(suffix, decimal_value(value.spec_digits())),
            suffix is None || suffix == Some(DecimalSuffix::Field) ==> r is Some,
            suffix == Some(DecimalSuffix::U8) ==> (r is Some <==> decimal_value(value.spec_digits())
                <= 0xff),
            suffix == Some(DecimalSuffix::U16) ==> (r is Some <==> decimal_value(value.spec_digits())
                <= 0xffff),
            suffix == Some(DecimalSuffix::U32) ==> (r is Some <==> decimal_value(value.spec_digits())
                <= 0xffff_ffff),
            suffix == Some(DecimalSuffix::U64) ==> (r is Some <==> decimal_value(value.spec_digits())
                <= 0xffff_ffff_ffff_ffff),
            r matches Some(d) ==> d.spec_number() == value && d.spec_suffix() == suffix
                && d.spec_span() == span,
    {
        let fits = match suffix {
            Some(DecimalSuffix::Field) | None => true,
            Some(s) => {
                let parsed = parse_u64(value.digits(), 10);
                match parsed {
                    None => false,
                    Some(v) => match s {
                        DecimalSuffix::U8 => v <= 0xff,
                        DecimalSuffix::U16 => v <= 0xffff,
                        DecimalSuffix::U32 => v <= 0xffff_ffff,
                        _ => true,
                    },
                }
            },
        };
        if fits {
            Some(DecimalLiteralExpression { value, suffix, span })
        } else {
            None
        }
    }

    pub fn number(&self) -> (r: &DecimalNumber)
        ensures
            r == self.spec_number(),
            fits_suffix(self.spec_suffix(), decimal_value(r.spec_digits())),
    {
        proof {
            use_type_invariant(self);
        }
        &self.value
    }

    pub fn suffix(&self) -> (r: Option<DecimalSuffix>)
        ensures
            r == self.spec_suffix(),
    {
        self.suffix
    }

    pub fn span(&self) -> (r: Span)
        ensures
            r == self.spec_span(),
    {
        self.span
    }
}

impl HexLiteralExpression {
    #[verifier::type_invariant]
    spec fn digits_fit(self) -> bool {
        let (n, bound) = hex_number_bound(self.value);
        is_hex(n.value@) && hex_value(n.value@) <= bound
    }

    pub closed spec fn spec_value(self) -> HexNumberExpression {
        self.value
    }

    pub closed spec fn spec_span(self) -> Span {
        self.span
    }

    /// The literal with the digits `value`, if they are a nonempty string of
    /// hexadecimal digits whose value fits the type they select.
    pub fn new(value: HexNumberExpression, span: Span) -> (r: Option<HexLiteralExpression>)
        ensures
            r is Some <==> ({
                let (n, bound) = hex_number_bound(value);
                is_hex(n.value@) && hex_value(n.value@) <= bound
            }),
            value matches HexNumberExpression::U8(n) ==> (r is Some <==> is_hex(n.value@)
                && hex_value(n.value@) <= 0xff),
            value matches HexNumberExpression::U16(n) ==> (r is Some <==> is_hex(n.value@)
                && hex_value(n.value@) <= 0xffff),
            value matches HexNumberExpression::U32(n) ==> (r is Some <==> is_hex(n.value@)
                && hex_value(n.value@) <= 0xffff_ffff),
            value matches HexNumberExpression::U64(n) ==> (r is Some <==> is_hex(n.value@)
                && hex_value(n.value@) <= 0xffff_ffff_ffff_ffff),
            r matches Some(h) ==> h.spec_value() == value && h.spec_span() == span,
    {
        let (digits, bound): (&HexNumber, u64) = match &value {
            HexNumberExpression::U8(n) => (n, 0xff),
            HexNumberExpression::U16(n) => (n, 0xffff),
            HexNumberExpression::U32(n) => (n, 0xffff_ffff),
            HexNumberExpression::U64(n) => (n, 0xffff_ffff_ffff_ffff),
        };
        let ok = if check_hex(digits.value.as_str()) {
            match parse_u64(digits.value.as_str(), 16) {
                Some(v) => v <= bound,
                None => false,
            }
        } else {
            false
        };
        if ok {
            Some(HexLiteralExpression { value, span })
        } else {
            None
        }
    }

    pub fn value(&self) -> (r: &HexNumberExpression)
        ensures
            r == self.spec_value(),
            ({
                let (n, bound) = hex_number_bound(*r);
                is_hex(n.value@) && hex_value(n.value@) <= bound
            }),
    {
        proof {
            use_type_invariant(self);
        }
        &self.value
    }

    pub fn span(&self) -> (r: Span)
        ensures
            r == self.spec_span(),
    {
        self.span
    }
}

impl BooleanLiteralExpression {
    #[verifier::type_invariant]
    spec fn is_true_or_false(self) -> bool {
        is_boolean_text(self.value@)
    }

    pub closed spec fn spec_value(self) -> Seq<char> {
        self.value@
    }

    pub closed spec fn spec_span(self) -> Span {
        self.span
    }

    /// The literal `value`, if it is `true` or `false`.
    pub fn new(value: String, span: Span) -> (r: Option<BooleanLiteralExpression>)
        ensures
            r is Some <==> is_boolean_text(value@),
            r matches Some(b) ==> b.spec_value() == value@ && b.spec_span() == span,
    {
        if check_boolean_text(value.as_str()) {
            Some(BooleanLiteralExpression { value, span })
        } else {
            None
        }
    }

    pub fn value(&self) -> (r: &str)
        ensures
            r@ == self.spec_value(),
            is_boolean_text(r@),
    {
        proof {
            use_type_invariant(self);
        }
        self.value.as_str()
    }

    pub fn span(&self) -> (r: Span)
        ensures
            r == self.spec_span(),
    {
        self.span
    }
}

/// Whether a member access names a tuple element whose index does not fit
/// in a `u32`.
pub open spec fn index_too_large(inner: IdentifierOrDecimal) -> bool {
    inner matches IdentifierOrDecimal::Decimal(n) && decimal_value(n.spec_digits()) > u32::MAX
}

impl DotAccess {
    #[verifier::type_invariant]
    spec fn index_fits(self) -> bool {
        !index_too_large(self.inner)
    }

    pub closed spec fn spec_inner(self) -> IdentifierOrDecimal {
        self.inner
    }

    pub closed spec fn spec_span(self) -> Span {
        self.span
    }

    /// The access `.inner`, if `inner` is a name or a tuple index that fits
    /// in a `u32`.
    pub fn new(inner: IdentifierOrDecimal, span: Span) -> (r: Option<DotAccess>)
        ensures
            r is Some <==> !index_too_large(inner),
            inner matches IdentifierOrDecimal::Decimal(n) ==> (r is Some <==> decimal_value(
                n.spec_digits(),
            ) <= 0xffff_ffff),
            inner is Identifier ==> r is Some,
            r matches Some(d) ==> d.spec_inner() == inner && d.spec_span() == span,
    {
        let ok = match &inner {
            IdentifierOrDecimal::Identifier(_) => true,
            IdentifierOrDecimal::Decimal(n) => match parse_u64(n.digits(), 10) {
                Some(v) => v <= 0xffff_ffff,
                None => false,
            },
        };
        if ok {
            Some(DotAccess { inner, span })
        } else {
            None
        }
    }

    pub fn inner(&self) -> (r: &IdentifierOrDecimal)
        ensures
            r == self.spec_inner(),
            !index_too_large(*r),
    {
        proof {
            use_type_invariant(self);
        }
        &self.inner
    }

    pub fn span(&self) -> (r: Span)
        ensures
            r == self.spec_span(),
    {
        self.span
    }
}

} // verus!
