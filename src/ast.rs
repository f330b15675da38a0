use vstd::prelude::*;

verus! {

/// A comment or a line break between tokens, kept so that it round-trips.
#[derive(Clone, Debug, PartialEq, Eq)]
pub enum CommentOrNewline {
    Newline,
    LineComment(Vec<char>),
    DocComment(Vec<char>),
}

/// The base of an integer literal that is not written in decimal.
#[derive(Clone, Copy, Debug, PartialEq, Eq)]
pub enum Base {
    Octal,
    Binary,
    Hex,
    Decimal,
}

/// A binary operator of an operator chain.
#[derive(Clone, Copy, Debug, PartialEq, Eq)]
pub enum BinOp {
    Caret,
    Star,
    Slash,
    DoubleSlash,
    Percent,
    Plus,
    Minus,
    Pizza,
    Equals,
    NotEquals,
    LessThan,
    GreaterThan,
    LessThanOrEq,
    GreaterThanOrEq,
    And,
    Or,
}

#[derive(Clone, Copy, Debug, PartialEq, Eq)]
pub enum UnaryOp {
    Negate,
    Not,
}

#[derive(Clone, Copy, Debug, PartialEq, Eq)]
pub enum FunctionArrow {
    Pure,
    Effectful,
}

/// The elements of a bracketed sequence, with the comments that stand alone
/// after the last of them.
#[derive(Debug)]
pub struct Collection<T> {
    pub items: Vec<T>,
    pub final_comments: Vec<CommentOrNewline>,
}

/// A field of a record value or of a record type.
#[derive(Debug)]
pub enum AssignedField<T> {
    /// `name: value`
    RequiredValue(Vec<char>, Vec<CommentOrNewline>, Box<T>),
    /// `name ?? value`
    OptionalValue(Vec<char>, Vec<CommentOrNewline>, Box<T>),
    /// `_name: value`
    IgnoredValue(Vec<char>, Vec<CommentOrNewline>, Box<T>),
    /// `name`
    LabelOnly(Vec<char>),
    SpaceBefore(Box<AssignedField<T>>, Vec<CommentOrNewline>),
    SpaceAfter(Box<AssignedField<T>>, Vec<CommentOrNewline>),
}

#[derive(Debug)]
pub enum Expr {
    Float(Vec<char>),
    Num(Vec<char>),
    NonBase10Int { string: Vec<char>, base: Base, is_negative: bool },
    /// A string literal, given as the source text between its quotes.
    Str(Vec<char>),
    /// A character literal, given as the source text between its quotes.
    SingleQuote(Vec<char>),
    /// A variable; `module_name` is empty when it is not qualified.
    Var { module_name: Vec<char>, ident: Vec<char> },
    Underscore(Vec<char>),
    Crash,
    Dbg,
    Try,
    Tag(Vec<char>),
    OpaqueRef(Vec<char>),
    RecordAccess(Box<Expr>, Vec<char>),
    TupleAccess(Box<Expr>, Vec<char>),
    /// `.field` or `.0`, as a function value.
    AccessorFunction(Vec<char>),
    /// `&field`
    RecordUpdater(Vec<char>),
    /// `expr?`
    TrySuffix(Box<Expr>),
    List(Collection<Expr>),
    Record(Collection<AssignedField<Expr>>),
    Tuple(Collection<Expr>),
    RecordUpdate { update: Box<Expr>, fields: Collection<AssignedField<Expr>> },
    RecordBuilder { mapper: Box<Expr>, fields: Collection<AssignedField<Expr>> },
    Closure(Vec<Pattern>, Box<Expr>),
    /// Definitions followed by the expression they scope over.
    Defs(Defs, Box<Expr>),
    DbgStmt { first: Box<Expr>, extra_args: Vec<Expr>, continuation: Box<Expr> },
    /// A call written by juxtaposition: `f a b`.
    Apply(Box<Expr>, Vec<Expr>),
    /// A call written with parentheses and commas: `f(a, b)`.
    PncApply(Box<Expr>, Collection<Expr>),
    /// An operator chain as parsed: operands each followed by an operator, then
    /// the last operand. Grouping is not resolved yet.
    BinOps(Vec<(Expr, BinOp)>, Box<Expr>),
    UnaryOp(Box<Expr>, UnaryOp),
    If { if_thens: Vec<(Expr, Expr)>, final_else: Box<Expr> },
    When(Box<Expr>, Vec<WhenBranch>),
    Return(Box<Expr>, Option<Box<Expr>>),
    SpaceBefore(Box<Expr>, Vec<CommentOrNewline>),
    SpaceAfter(Box<Expr>, Vec<CommentOrNewline>),
    ParensAround(Box<Expr>),
    MalformedIdent(Vec<char>),
    PrecedenceConflict,
}

#[derive(Debug)]
pub struct WhenBranch {
    pub patterns: Vec<Pattern>,
    pub value: Expr,
    pub guard: Option<Expr>,
}

#[derive(Debug)]
pub enum Pattern {
    Identifier(Vec<char>),
    QualifiedIdentifier { module_name: Vec<char>, ident: Vec<char> },
    Tag(Vec<char>),
    OpaqueRef(Vec<char>),
    /// A tag applied to patterns: `Tag(a, b)`.
    Apply(Box<Pattern>, Collection<Pattern>),
    RecordDestructure(Collection<Pattern>),
    RequiredField(Vec<char>, Box<Pattern>),
    /// `name ? default`
    OptionalField(Vec<char>, Box<Expr>),
    NumLiteral(Vec<char>),
    NonBase10Literal { string: Vec<char>, base: Base, is_negative: bool },
    FloatLiteral(Vec<char>),
    StrLiteral(Vec<char>),
    Underscore(Vec<char>),
    SingleQuote(Vec<char>),
    Tuple(Collection<Pattern>),
    List(Collection<Pattern>),
    /// `..`, or `.. as name`
    ListRest(Option<Vec<char>>),
    /// `pattern as name`
    As(Box<Pattern>, Vec<char>),
    SpaceBefore(Box<Pattern>, Vec<CommentOrNewline>),
    SpaceAfter(Box<Pattern>, Vec<CommentOrNewline>),
    Malformed(Vec<char>),
    MalformedIdent(Vec<char>),
    MalformedExpr(Box<Expr>),
}

/// `Name` or `Name(a, b)`: the left side of a type definition.
#[derive(Debug)]
pub struct TypeHeader {
    pub name: Vec<char>,
    pub vars: Vec<Vec<char>>,
}

/// `var implements Ability & Other`
#[derive(Debug)]
pub struct ImplementsClause {
    pub var: Vec<char>,
    pub abilities: Vec<TypeAnnotation>,
}

#[derive(Debug)]
pub enum TypeAnnotation {
    Function(Vec<TypeAnnotation>, FunctionArrow, Box<TypeAnnotation>),
    /// An applied type; `module` is empty when it is not qualified. A tag of a
    /// tag union is written in this form too, with no module.
    Apply(Vec<char>, Vec<char>, Vec<TypeAnnotation>),
    BoundVariable(Vec<char>),
    As(Box<TypeAnnotation>, Vec<CommentOrNewline>, TypeHeader),
    Record { fields: Collection<AssignedField<TypeAnnotation>>, ext: Option<Box<TypeAnnotation>> },
    Tuple { elems: Collection<TypeAnnotation>, ext: Option<Box<TypeAnnotation>> },
    TagUnion { tags: Collection<TypeAnnotation>, ext: Option<Box<TypeAnnotation>> },
    Inferred,
    Wildcard,
    Where(Box<TypeAnnotation>, Vec<ImplementsClause>),
    SpaceBefore(Box<TypeAnnotation>, Vec<CommentOrNewline>),
    SpaceAfter(Box<TypeAnnotation>, Vec<CommentOrNewline>),
}

#[derive(Debug)]
pub enum TypeDef {
    Alias { header: TypeHeader, ann: TypeAnnotation },
    Opaque { header: TypeHeader, typ: TypeAnnotation },
    Ability { header: TypeHeader },
}

#[derive(Debug)]
pub enum ValueDef {
    Annotation(Pattern, TypeAnnotation),
    Body(Pattern, Box<Expr>),
    AnnotatedBody {
        ann_pattern: Pattern,
        ann_type: TypeAnnotation,
        lines_between: Vec<CommentOrNewline>,
        body_pattern: Pattern,
        body_expr: Box<Expr>,
    },
    Dbg(Expr),
    Expect(Expr),
    ModuleImport(ModuleImport),
    IngestedFileImport(IngestedFileImport),
    Stmt(Expr),
}

/// `import pkg.Name { params } as Alias exposing [a, b]`
#[derive(Debug)]
pub struct ModuleImport {
    pub before_name: Vec<CommentOrNewline>,
    /// The package shorthand, when the module comes from another package.
    pub package: Option<Vec<char>>,
    pub name: Vec<char>,
    pub params: Option<ModuleImportParams>,
    pub alias: Option<Vec<char>>,
    pub exposed: Option<Collection<Vec<char>>>,
}

/// The record of values that an import passes to the module it imports.
#[derive(Debug)]
pub struct ModuleImportParams {
    pub before: Vec<CommentOrNewline>,
    pub params: Collection<AssignedField<Expr>>,
}

/// `import "path" as name : Type`
#[derive(Debug)]
pub struct IngestedFileImport {
    pub before_path: Vec<CommentOrNewline>,
    /// The path, as the source text between its quotes.
    pub path: Vec<char>,
    pub name: Vec<char>,
    pub annotation: Option<IngestedFileAnnotation>,
}

#[derive(Debug)]
pub struct IngestedFileAnnotation {
    pub before_colon: Vec<CommentOrNewline>,
    pub annotation: TypeAnnotation,
}

/// The parameters of a module header: `{ a, b } ->`.
#[derive(Debug)]
pub struct ModuleParams {
    pub pattern: Collection<Pattern>,
    pub before_arrow: Vec<CommentOrNewline>,
    pub after_arrow: Vec<CommentOrNewline>,
}

/// `module [exposed, names]`, with the comments before it.
#[derive(Debug)]
pub struct ModuleHeader {
    pub before: Vec<CommentOrNewline>,
    pub after_keyword: Vec<CommentOrNewline>,
    pub params: Option<ModuleParams>,
    pub exposes: Collection<Vec<char>>,
}

#[derive(Debug)]
pub enum Def {
    Type(TypeDef),
    Value(ValueDef),
}

/// One definition with the comments and blank lines before and after it.
#[derive(Debug)]
pub struct DefEntry {
    pub before: Vec<CommentOrNewline>,
    pub def: Def,
    pub after: Vec<CommentOrNewline>,
}

/// Definitions in declaration order.
#[derive(Debug)]
pub struct Defs {
    pub entries: Vec<DefEntry>,
}

} // verus!
