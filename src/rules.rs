use vstd::prelude::*;

use crate::ast::{
    AssignedField, Base, BinOp, CommentOrNewline, Def, DefEntry, Expr, FunctionArrow,
    ImplementsClause, IngestedFileImport, ModuleHeader, ModuleImport, ModuleImportParams, Pattern, TypeAnnotation,
    TypeDef, TypeHeader, UnaryOp, ValueDef, WhenBranch,
};
use crate::buf::{
    m_ensure_newline, m_ensure_whitespace, m_ident, m_indent, m_newline, m_push, m_push_str, m_space,
    BufModel,
};
use crate::rewrite::{callee, migrate_spec, strip_spaces, operand_of, tree_size, MigrateError, MigratedBinOp};

verus! {

/// What a node writes right after itself, so that no comma or parenthesis
/// lands after a comment on the same line.
#[derive(Clone, Copy, Debug, PartialEq, Eq, Structural)]
pub enum Suffix {
    /// Nothing follows.
    Empty,
    Comma,
    OpenRound,
    Question,
}

/// The bracket pair of a collection.
#[derive(Clone, Copy, Debug, PartialEq, Eq, Structural)]
pub enum Braces {
    Round,
    Square,
    Curly,
}

pub open spec fn open_brace(b: Braces) -> char {
    match b {
        Braces::Round => '(',
        Braces::Square => '[',
        Braces::Curly => '{',
    }
}

pub open spec fn close_brace(b: Braces) -> char {
    match b {
        Braces::Round => ')',
        Braces::Square => ']',
        Braces::Curly => '}',
    }
}

pub open spec fn suffix_text(s: Suffix) -> Seq<char> {
    match s {
        Suffix::Empty => Seq::empty(),
        Suffix::Comma => seq![','],
        Suffix::OpenRound => seq!['('],
        Suffix::Question => seq!['?'],
    }
}

pub open spec fn op_text(op: BinOp) -> Seq<char> {
    match op {
        BinOp::Caret => "^"@,
        BinOp::Star => "*"@,
        BinOp::Slash => "/"@,
        BinOp::DoubleSlash => "//"@,
        BinOp::Percent => "%"@,
        BinOp::Plus => "+"@,
        BinOp::Minus => "-"@,
        BinOp::Pizza => "|>"@,
        BinOp::Equals => "=="@,
        BinOp::NotEquals => "!="@,
        BinOp::LessThan => "<"@,
        BinOp::GreaterThan => ">"@,
        BinOp::LessThanOrEq => "<="@,
        BinOp::GreaterThanOrEq => ">="@,
        BinOp::And => "&&"@,
        BinOp::Or => "||"@,
    }
}

pub open spec fn base_prefix(b: Base) -> Seq<char> {
    match b {
        Base::Hex => "0x"@,
        Base::Octal => "0o"@,
        Base::Binary => "0b"@,
        Base::Decimal => Seq::empty(),
    }
}

pub open spec fn unary_text(op: UnaryOp) -> Seq<char> {
    match op {
        UnaryOp::Negate => "-"@,
        UnaryOp::Not => "!"@,
    }
}

pub open spec fn arrow_text(a: FunctionArrow) -> Seq<char> {
    match a {
        FunctionArrow::Pure => " ->"@,
        FunctionArrow::Effectful => " =>"@,
    }
}

/// One level of indentation deeper (where the column still fits).
pub open spec fn deeper(i: nat) -> nat {
    if i + 4 <= usize::MAX { i + 4 } else { i }
}

/// Indentation, then `s`.
pub open spec fn tok(m: BufModel, i: nat, s: Seq<char>) -> BufModel {
    m_push_str(m_indent(m, i), s)
}

/// `s` between two `q`.
pub open spec fn quoted(m: BufModel, q: char, s: Seq<char>) -> BufModel {
    m_push(m_push_str(m_push(m, q), s), q)
}

/// `module.`, or nothing for an unqualified name.
pub open spec fn qualifier(m: BufModel, module_name: Seq<char>) -> BufModel {
    if module_name.len() == 0 { m } else { m_push(m_push_str(m, module_name), '.') }
}

pub open spec fn non_base10(m: BufModel, string: Seq<char>, base: Base, is_negative: bool) -> BufModel {
    m_push_str(m_push_str(m_push_str(m, if is_negative { seq!['-'] } else { Seq::empty() }), base_prefix(base)), string)
}

pub open spec fn suffix_out(m: BufModel, i: nat, s: Suffix) -> BufModel {
    m_push_str(m_indent(m, i), suffix_text(s))
}

pub open spec fn comment_out(m: BufModel, c: CommentOrNewline, i: nat) -> BufModel {
    match c {
        CommentOrNewline::Newline => m_newline(m),
        CommentOrNewline::LineComment(t) => m_newline(m_push_str(tok(m_ensure_whitespace(m), i, "#"@), t@)),
        CommentOrNewline::DocComment(t) => m_newline(m_push_str(tok(m_ensure_whitespace(m), i, "##"@), t@)),
    }
}

/// Comments and line breaks, in order.
pub open spec fn comments_out(m: BufModel, cs: Seq<CommentOrNewline>, i: nat) -> BufModel
    decreases cs.len(),
{
    if cs.len() == 0 {
        m
    } else {
        comment_out(comments_out(m, cs.drop_last(), i), cs.last(), i)
    }
}

/// The names of a type header, separated by commas.
pub open spec fn names_out(s: Seq<Vec<char>>, k: nat, i: nat, m: BufModel) -> BufModel
    decreases s.len() - k,
{
    if k >= s.len() {
        m
    } else {
        let is_last = k == s.len() - 1;
        let m1 = suffix_out(tok(m, i, s[k as int]@), i, if is_last { Suffix::Empty } else { Suffix::Comma });
        names_out(s, k + 1, i, if is_last { m1 } else { m_space(m1) })
    }
}

pub open spec fn header_out(h: TypeHeader, i: nat, m: BufModel) -> BufModel {
    let m1 = tok(m, i, h.name@);
    if h.vars@.len() == 0 {
        m1
    } else {
        m_push(m_indent(names_out(h.vars@, 0, i, m_push(m1, '(')), i), ')')
    }
}

/// A bracketed list of plain names, such as what a module exposes.
pub open spec fn names_coll(s: Seq<Vec<char>>, cs: Seq<CommentOrNewline>, b: Braces, i: nat, m: BufModel) -> BufModel {
    if s.len() == 0 && cs.len() == 0 {
        coll_empty(m, i, b)
    } else {
        coll_close(names_out(s, 0, deeper(i), m_push(m_indent(m, i), open_brace(b))), cs, i, b)
    }
}

/// What writing a node gives: the buffer after it, or the error together with
/// the buffer as it stood when the error stopped the writing.
pub type Out = Result<BufModel, (BufModel, MigrateError)>;

/// How an expression is written, followed by `sfx`.
pub open spec fn expr_out(e: Expr, i: nat, sfx: Suffix, m: BufModel) -> Out
    decreases e, 1int, 1int,
{
    match e {
        Expr::SpaceBefore(inner, cs) => expr_out(*inner, i, sfx, comments_out(m, cs@, i)),
        Expr::SpaceAfter(inner, cs) => match expr_out(*inner, i, sfx, m) {
            Ok(m1) => Ok(comments_out(m1, cs@, i)),
            Err(x) => Err(x),
        },
        _ => match expr_body_out(e, i, m) {
            Ok(m1) => Ok(suffix_out(m1, i, sfx)),
            Err(x) => Err(x),
        },
    }
}

/// How an expression other than a comment wrapper is written.
pub open spec fn expr_body_out(e: Expr, i: nat, m: BufModel) -> Out
    decreases e, 1int, 0int,
{
    match e {
        Expr::Float(s) => Ok(tok(m, i, s@)),
        Expr::Num(s) => Ok(tok(m, i, s@)),
        Expr::Tag(s) => Ok(tok(m, i, s@)),
        Expr::OpaqueRef(s) => Ok(tok(m, i, s@)),
        Expr::SingleQuote(s) => Ok(quoted(m_indent(m, i), '\'', s@)),
        Expr::NonBase10Int { string, base, is_negative } => Ok(non_base10(m_indent(m, i), string@, base, is_negative)),
        Expr::Str(s) => Ok(quoted(m_indent(m, i), '"', s@)),
        Expr::Var { module_name, ident } => Ok(m_ident(qualifier(m_indent(m, i), module_name@), ident@)),
        Expr::Underscore(s) => Ok(m_push_str(tok(m, i, "_"@), s@)),
        Expr::Crash => Ok(tok(m, i, "crash"@)),
        Expr::Dbg => Ok(tok(m, i, "dbg"@)),
        Expr::Try => Ok(tok(m, i, "try"@)),
        Expr::RecordAccess(inner, name) => match expr_out(*inner, i, Suffix::Empty, m_indent(m, i)) {
            Ok(m1) => Ok(m_push_str(m_push(m1, '.'), name@)),
            Err(x) => Err(x),
        },
        Expr::TupleAccess(inner, name) => match expr_out(*inner, i, Suffix::Empty, m_indent(m, i)) {
            Ok(m1) => Ok(m_push_str(m_push(m1, '.'), name@)),
            Err(x) => Err(x),
        },
        Expr::AccessorFunction(s) => Ok(m_push_str(tok(m, i, "."@), s@)),
        Expr::RecordUpdater(s) => Ok(m_push_str(tok(m, i, "&"@), s@)),
        Expr::TrySuffix(inner) => expr_out(*inner, i, Suffix::Question, m),
        Expr::List(_) => expr_coll_out(e, i, m),
        Expr::Tuple(_) => expr_coll_out(e, i, m),
        Expr::Record(_) => expr_coll_out(e, i, m),
        Expr::RecordUpdate { .. } => expr_coll_out(e, i, m),
        Expr::RecordBuilder { .. } => expr_coll_out(e, i, m),
        Expr::Closure(args, body) => match patterns_out(args@, 0, i, false, tok(m, i, "|"@)) {
            Ok(m1) => expr_out(*body, i, Suffix::Empty, m_space(tok(m1, i, "|"@))),
            Err(x) => Err(x),
        },
        Expr::Defs(defs, fin) => {
            let m1 = m_ensure_newline(tok(m, i, "{"@));
            match entries_out(defs.entries@, 0, deeper(i), m1) {
                Ok(m2) => match expr_out(*fin, deeper(i), Suffix::Empty, m2) {
                    Ok(m3) => Ok(tok(m_ensure_newline(m3), i, "}"@)),
                    Err(x) => Err(x),
                },
                Err(x) => Err(x),
            }
        },
        Expr::DbgStmt { first, extra_args, continuation } => match expr_out(*first, i, Suffix::Empty, m_space(tok(m, i, "dbg"@))) {
            Ok(m1) => match dbg_args_out(extra_args@, 0, i, m1) {
                Ok(m2) => expr_out(*continuation, i, Suffix::Empty, m_ensure_newline(m2)),
                Err(x) => Err(x),
            },
            Err(x) => Err(x),
        },
        Expr::Apply(f, args) => match expr_out(*f, i, Suffix::OpenRound, m) {
            Ok(m1) => match exprs_out(args@, 0, i, false, m1) {
                Ok(m2) => Ok(tok(m2, i, ")"@)),
                Err(x) => Err(x),
            },
            Err(x) => Err(x),
        },
        Expr::PncApply(f, c) => match expr_out(*f, i, Suffix::OpenRound, m) {
            Ok(m1) => match exprs_out(c.items@, 0, i, false, m1) {
                Ok(m2) => Ok(tok(comments_out(m2, c.final_comments@, i), i, ")"@)),
                Err(x) => Err(x),
            },
            Err(x) => Err(x),
        },
        Expr::BinOps(pairs, last) => match migrate_spec(pairs@, *last, m.snakify) {
            Ok(t) => conv_out(e, t, i, Suffix::Empty, m),
            Err(x) => Err((m, x)),
        },
        Expr::UnaryOp(inner, op) => expr_out(*inner, i, Suffix::Empty, tok(m, i, unary_text(op))),
        Expr::If { if_thens, final_else } => match if_thens_out(if_thens@, 0, i, m) {
            Ok(m1) => block_out(*final_else, i, m_space(m_push_str(m_space(m_indent(m1, i)), "else"@))),
            Err(x) => Err(x),
        },
        Expr::When(cond, branches) => match expr_out(*cond, i, Suffix::Empty, m_space(tok(m, i, "match"@))) {
            Ok(m1) => match branches_out(branches@, 0, i, m_ensure_newline(m_push(m_space(m_indent(m1, i)), '{'))) {
                Ok(m2) => Ok(tok(m2, i, "}"@)),
                Err(x) => Err(x),
            },
            Err(x) => Err(x),
        },
        Expr::Return(v, cont) => match expr_out(*v, i, Suffix::Empty, m_space(tok(m, i, "return"@))) {
            Ok(m1) => match cont {
                Some(c) => expr_out(*c, i, Suffix::Empty, m_ensure_newline(m1)),
                None => Ok(m_ensure_newline(m1)),
            },
            Err(x) => Err(x),
        },
        Expr::ParensAround(inner) => match expr_out(*inner, i, Suffix::Empty, tok(m, i, "("@)) {
            Ok(m1) => Ok(tok(m1, i, ")"@)),
            Err(x) => Err(x),
        },
        Expr::MalformedIdent(_) => Err((m, MigrateError::MalformedIdentNotSupported)),
        Expr::PrecedenceConflict => Err((m, MigrateError::PrecedenceConflictNotSupported)),
        Expr::SpaceBefore(..) => Ok(m),
        Expr::SpaceAfter(..) => Ok(m),
    }
}

/// A block body: definitions as they are, anything else between braces one
/// level deeper.
pub open spec fn block_out(e: Expr, i: nat, m: BufModel) -> Out
    decreases e, 1int, 2int,
{
    if e is Defs {
        expr_out(e, i, Suffix::Empty, m)
    } else {
        match expr_out(e, deeper(i), Suffix::Empty, m_ensure_newline(tok(m, i, "{"@))) {
            Ok(m1) => Ok(tok(m_ensure_newline(m1), i, "}"@)),
            Err(x) => Err(x),
        }
    }
}

/// Expressions `s[k..]`, each but the last followed by a comma and a space
/// (the last too when a tail follows).
pub open spec fn exprs_out(s: Seq<Expr>, k: nat, i: nat, tail: bool, m: BufModel) -> Out
    decreases s, 1int, s.len() - k,
{
    if k >= s.len() {
        Ok(m)
    } else {
        let is_last = k == s.len() - 1 && !tail;
        match expr_out(s[k as int], i, if is_last { Suffix::Empty } else { Suffix::Comma }, m) {
            Ok(m1) => exprs_out(s, k + 1, i, tail, if is_last { m1 } else { m_space(m1) }),
            Err(x) => Err(x),
        }
    }
}

pub open spec fn patterns_out(s: Seq<Pattern>, k: nat, i: nat, tail: bool, m: BufModel) -> Out
    decreases s, 1int, s.len() - k,
{
    if k >= s.len() {
        Ok(m)
    } else {
        let is_last = k == s.len() - 1 && !tail;
        match pattern_out(s[k as int], i, if is_last { Suffix::Empty } else { Suffix::Comma }, m) {
            Ok(m1) => patterns_out(s, k + 1, i, tail, if is_last { m1 } else { m_space(m1) }),
            Err(x) => Err(x),
        }
    }
}

pub open spec fn types_out(s: Seq<TypeAnnotation>, k: nat, i: nat, tail: bool, m: BufModel) -> Out
    decreases s, 1int, s.len() - k,
{
    if k >= s.len() {
        Ok(m)
    } else {
        let is_last = k == s.len() - 1 && !tail;
        match type_out(s[k as int], i, if is_last { Suffix::Empty } else { Suffix::Comma }, m) {
            Ok(m1) => types_out(s, k + 1, i, tail, if is_last { m1 } else { m_space(m1) }),
            Err(x) => Err(x),
        }
    }
}

pub open spec fn efields_out(s: Seq<AssignedField<Expr>>, k: nat, i: nat, m: BufModel) -> Out
    decreases s, 1int, s.len() - k,
{
    if k >= s.len() {
        Ok(m)
    } else {
        let is_last = k == s.len() - 1;
        match efield_out(s[k as int], i, if is_last { Suffix::Empty } else { Suffix::Comma }, m) {
            Ok(m1) => efields_out(s, k + 1, i, if is_last { m1 } else { m_space(m1) }),
            Err(x) => Err(x),
        }
    }
}

pub open spec fn tfields_out(s: Seq<AssignedField<TypeAnnotation>>, k: nat, i: nat, tail: bool, m: BufModel) -> Out
    decreases s, 1int, s.len() - k,
{
    if k >= s.len() {
        Ok(m)
    } else {
        let is_last = k == s.len() - 1 && !tail;
        match tfield_out(s[k as int], i, if is_last { Suffix::Empty } else { Suffix::Comma }, m) {
            Ok(m1) => tfields_out(s, k + 1, i, tail, if is_last { m1 } else { m_space(m1) }),
            Err(x) => Err(x),
        }
    }
}

/// The extra arguments of a `dbg` statement: `, arg` each.
pub open spec fn dbg_args_out(s: Seq<Expr>, k: nat, i: nat, m: BufModel) -> Out
    decreases s, 1int, s.len() - k,
{
    if k >= s.len() {
        Ok(m)
    } else {
        match expr_out(s[k as int], i, Suffix::Empty, m_space(m_push(m, ','))) {
            Ok(m1) => dbg_args_out(s, k + 1, i, m1),
            Err(x) => Err(x),
        }
    }
}

pub open spec fn if_thens_out(s: Seq<(Expr, Expr)>, k: nat, i: nat, m: BufModel) -> Out
    decreases s, 1int, s.len() - k,
{
    if k >= s.len() {
        Ok(m)
    } else {
        let m0 = m_space(tok(m, i, if k == 0 { "if"@ } else { "else if"@ }));
        match expr_out(s[k as int].0, i, Suffix::Empty, m0) {
            Ok(m1) => match block_out(s[k as int].1, i, m_space(m1)) {
                Ok(m2) => if_thens_out(s, k + 1, i, m2),
                Err(x) => Err(x),
            },
            Err(x) => Err(x),
        }
    }
}

pub open spec fn branches_out(s: Seq<WhenBranch>, k: nat, i: nat, m: BufModel) -> Out
    decreases s, 1int, s.len() - k,
{
    if k >= s.len() {
        Ok(m)
    } else {
        match branch_out(s[k as int], i, m) {
            Ok(m1) => branches_out(s, k + 1, i, m1),
            Err(x) => Err(x),
        }
    }
}

/// A branch of a pattern match: its alternatives, its guard, `->` and its body.
pub open spec fn branch_out(b: WhenBranch, i: nat, m: BufModel) -> Out
    decreases b, 1int, 1int,
{
    match branch_patterns_out(b.patterns@, 0, i, m) {
        Ok(m1) => {
            let guarded = match b.guard {
                Some(g) => expr_out(g, deeper(i), Suffix::Empty, m_space(tok(m1, i, " if"@))),
                None => Ok(m1),
            };
            match guarded {
                Ok(m2) => expr_out(b.value, deeper(i), Suffix::Empty, tok(m2, i, "->"@)),
                Err(x) => Err(x),
            }
        },
        Err(x) => Err(x),
    }
}

pub open spec fn branch_patterns_out(s: Seq<Pattern>, k: nat, i: nat, m: BufModel) -> Out
    decreases s, 1int, s.len() - k,
{
    if k >= s.len() {
        Ok(m)
    } else {
        let m0 = if k != 0 { m_space(tok(m, i, " |"@)) } else { m };
        match pattern_out(s[k as int], deeper(i), Suffix::Empty, m0) {
            Ok(m1) => branch_patterns_out(s, k + 1, i, m1),
            Err(x) => Err(x),
        }
    }
}

pub open spec fn entries_out(s: Seq<DefEntry>, k: nat, i: nat, m: BufModel) -> Out
    decreases s, 1int, s.len() - k,
{
    if k >= s.len() {
        Ok(m)
    } else {
        match entry_out(s[k as int], i, m) {
            Ok(m1) => entries_out(s, k + 1, i, m1),
            Err(x) => Err(x),
        }
    }
}

/// The definitions `s[k..j]`, in order.
pub open spec fn entries_between(s: Seq<DefEntry>, k: nat, j: nat, i: nat, m: BufModel) -> Out
    decreases j - k,
{
    if k >= j || k >= s.len() {
        Ok(m)
    } else {
        match entry_out(s[k as int], i, m) {
            Ok(m1) => entries_between(s, k + 1, j, i, m1),
            Err(x) => Err(x),
        }
    }
}

/// A definition between the comments that belong to it.
pub open spec fn entry_out(d: DefEntry, i: nat, m: BufModel) -> Out
    decreases d, 1int, 1int,
{
    match def_out(d.def, i, comments_out(m, d.before@, i)) {
        Ok(m1) => Ok(comments_out(m1, d.after@, i)),
        Err(x) => Err(x),
    }
}

pub open spec fn def_out(d: Def, i: nat, m: BufModel) -> Out
    decreases d, 1int, 1int,
{
    match d {
        Def::Type(td) => match td {
            TypeDef::Alias { header, ann } => type_out(ann, i, Suffix::Empty, m_space(m_push_str(header_out(header, i, m), " :"@))),
            TypeDef::Opaque { .. } => Err((m, MigrateError::OpaqueNotSupported)),
            TypeDef::Ability { .. } => Err((m, MigrateError::AbilitiesNotSupported)),
        },
        Def::Value(vd) => match vd {
            ValueDef::Annotation(p, t) => match pattern_out(p, i, Suffix::Empty, m) {
                Ok(m1) => type_out(t, i, Suffix::Empty, m_space(tok(m1, i, ":"@))),
                Err(x) => Err(x),
            },
            ValueDef::Body(p, body) => match pattern_out(p, i, Suffix::Empty, m) {
                Ok(m1) => expr_out(*body, i, Suffix::Empty, m_space(tok(m1, i, " ="@))),
                Err(x) => Err(x),
            },
            ValueDef::AnnotatedBody { ann_pattern, ann_type, lines_between, body_pattern, body_expr } => match pattern_out(ann_pattern, i, Suffix::Empty, m) {
                Ok(m1) => match type_out(ann_type, i, Suffix::Empty, m_space(tok(m1, i, ":"@))) {
                    Ok(m2) => match pattern_out(body_pattern, i, Suffix::Empty, comments_out(m2, lines_between@, i)) {
                        Ok(m3) => expr_out(*body_expr, i, Suffix::Empty, m_space(tok(m3, i, " ="@))),
                        Err(x) => Err(x),
                    },
                    Err(x) => Err(x),
                },
                Err(x) => Err(x),
            },
            ValueDef::Dbg(c) => expr_out(c, i, Suffix::Empty, m_space(tok(m, i, "dbg"@))),
            ValueDef::Expect(c) => expr_out(c, i, Suffix::Empty, m_space(tok(m, i, "expect"@))),
            ValueDef::ModuleImport(mi) => module_import_out(mi, i, m),
            ValueDef::IngestedFileImport(fi) => ingested_import_out(fi, i, m),
            ValueDef::Stmt(c) => expr_out(c, i, Suffix::Empty, m),
        },
    }
}

/// `import pkg.Name`, with the comments before the name.
pub open spec fn import_head(m: BufModel, i: nat, before: Seq<CommentOrNewline>, package: Option<Vec<char>>, name: Seq<char>) -> BufModel {
    let m1 = m_indent(comments_out(m_space(tok(m, i, "import"@)), before, i), i);
    let m2 = match package {
        Some(p) => m_push(m_push_str(m1, p@), '.'),
        None => m1,
    };
    m_push_str(m2, name)
}

/// ` as Alias exposing [a, b]`, then the end of the line.
pub open spec fn import_tail(m: BufModel, i: nat, alias: Option<Vec<char>>, exposed: Option<crate::ast::Collection<Vec<char>>>) -> BufModel {
    let m5 = match alias {
        Some(a) => tok(m_space(tok(m_space(m), i, "as"@)), i, a@),
        None => m,
    };
    let m6 = match exposed {
        Some(c) => names_coll(c.items@, c.final_comments@, Braces::Square, i, m_space(tok(m_space(m5), i, "exposing"@))),
        None => m5,
    };
    m_ensure_newline(m6)
}

/// The record of values passed to an imported module.
pub open spec fn import_params_out(p: ModuleImportParams, i: nat, m: BufModel) -> Out
    decreases p, 1int, 1int,
{
    let m2 = comments_out(m, p.before@, i);
    let fields = p.params.items@;
    if fields.len() == 0 && p.params.final_comments@.len() == 0 {
        Ok(coll_empty(m2, i, Braces::Curly))
    } else {
        match efields_out(fields, 0, deeper(i), m_push(m_indent(m2, i), '{')) {
            Ok(m3) => Ok(coll_close(m3, p.params.final_comments@, i, Braces::Curly)),
            Err(x) => Err(x),
        }
    }
}

/// `import pkg.Name { params } as Alias exposing [a, b]`, on a line of its own.
pub open spec fn module_import_out(mi: ModuleImport, i: nat, m: BufModel) -> Out
    decreases mi, 1int, 1int,
{
    let m1 = import_head(m, i, mi.before_name@, mi.package, mi.name@);
    match mi.params {
        Some(p) => match import_params_out(p, i, m1) {
            Ok(m4) => Ok(import_tail(m4, i, mi.alias, mi.exposed)),
            Err(x) => Err(x),
        },
        None => Ok(import_tail(m1, i, mi.alias, mi.exposed)),
    }
}

/// `import "path" as name : Type`
pub open spec fn ingested_import_out(fi: IngestedFileImport, i: nat, m: BufModel) -> Out
    decreases fi, 1int, 1int,
{
    let inner = deeper(i);
    let m1 = quoted(m_indent(comments_out(m_space(tok(m, i, "import"@)), fi.before_path@, inner), inner), '"', fi.path@);
    let m2 = tok(m_space(tok(m_space(m1), inner, "as"@)), inner, fi.name@);
    match fi.annotation {
        Some(a) => type_out(a.annotation, inner, Suffix::Empty, m_space(tok(comments_out(m2, a.before_colon@, inner), inner, ":"@))),
        None => Ok(m2),
    }
}

/// `module {params} -> [exposed, names]`, with the comments before it.
pub open spec fn module_header_out(h: ModuleHeader, m: BufModel) -> Out {
    let m1 = comments_out(m_space(tok(comments_out(m, h.before@, 0), 0, "module"@)), h.after_keyword@, 0);
    let with_params = match h.params {
        Some(p) => match patterns_coll(p.pattern.items@, p.pattern.final_comments@, Braces::Curly, 0, m1) {
            Ok(m2) => Ok(comments_out(m_space(m_push_str(m_space(comments_out(m2, p.before_arrow@, 0)), "->"@)), p.after_arrow@, 0)),
            Err(x) => Err(x),
        },
        None => Ok(m1),
    };
    match with_params {
        Ok(m3) => Ok(names_coll(h.exposes.items@, h.exposes.final_comments@, Braces::Square, 0, m3)),
        Err(x) => Err(x),
    }
}

/// How a pattern is written, followed by `sfx`.
pub open spec fn pattern_out(p: Pattern, i: nat, sfx: Suffix, m: BufModel) -> Out
    decreases p, 1int, 1int,
{
    match p {
        Pattern::SpaceBefore(inner, cs) => pattern_out(*inner, i, sfx, comments_out(m, cs@, i)),
        Pattern::SpaceAfter(inner, cs) => match pattern_out(*inner, i, sfx, m) {
            Ok(m1) => Ok(comments_out(m1, cs@, i)),
            Err(x) => Err(x),
        },
        _ => match pattern_body_out(p, i, m) {
            Ok(m1) => Ok(suffix_out(m1, i, sfx)),
            Err(x) => Err(x),
        },
    }
}

pub open spec fn pattern_body_out(p: Pattern, i: nat, m: BufModel) -> Out
    decreases p, 1int, 0int,
{
    match p {
        Pattern::Identifier(s) => Ok(m_ident(m_indent(m, i), s@)),
        Pattern::QualifiedIdentifier { module_name, ident } => Ok(m_ident(m_push(tok(m, i, module_name@), '.'), ident@)),
        Pattern::Tag(s) => Ok(tok(m, i, s@)),
        Pattern::OpaqueRef(s) => Ok(tok(m, i, s@)),
        Pattern::NumLiteral(s) => Ok(tok(m, i, s@)),
        Pattern::FloatLiteral(s) => Ok(tok(m, i, s@)),
        Pattern::Apply(f, c) => match pattern_out(*f, i, Suffix::OpenRound, m) {
            Ok(m1) => match patterns_out(c.items@, 0, i, false, m1) {
                Ok(m2) => Ok(tok(comments_out(m2, c.final_comments@, i), i, ")"@)),
                Err(x) => Err(x),
            },
            Err(x) => Err(x),
        },
        Pattern::RecordDestructure(_) => pattern_coll_out(p, i, m),
        Pattern::Tuple(_) => pattern_coll_out(p, i, m),
        Pattern::List(_) => pattern_coll_out(p, i, m),
        Pattern::RequiredField(name, inner) => pattern_out(*inner, i, Suffix::Empty, m_space(m_push(tok(m, i, name@), ':'))),
        Pattern::OptionalField(name, default) => expr_out(*default, i, Suffix::Question, m_space(m_push(tok(m, i, name@), '?'))),
        Pattern::NonBase10Literal { string, base, is_negative } => Ok(non_base10(m_indent(m, i), string@, base, is_negative)),
        Pattern::StrLiteral(s) => Ok(quoted(m_indent(m, i), '"', s@)),
        Pattern::Underscore(s) => Ok(m_push_str(tok(m, i, "_"@), s@)),
        Pattern::SingleQuote(s) => Ok(quoted(m_indent(m, i), '\'', s@)),
        Pattern::ListRest(rest) => {
            let m1 = tok(m, i, ".."@);
            match rest {
                None => Ok(m1),
                Some(name) => Ok(tok(m_ensure_whitespace(m_push_str(m_ensure_whitespace(m_indent(m1, i)), "as"@)), i, name@)),
            }
        },
        Pattern::As(inner, name) => match pattern_out(*inner, i, Suffix::Empty, m) {
            Ok(m1) => Ok(tok(m_ensure_whitespace(tok(m1, i, " as"@)), i, name@)),
            Err(x) => Err(x),
        },
        Pattern::Malformed(_) => Err((m, MigrateError::MalformedPatternNotSupported)),
        Pattern::MalformedIdent(_) => Err((m, MigrateError::MalformedPatternIdentNotSupported)),
        Pattern::MalformedExpr(_) => Err((m, MigrateError::MalformedPatternAsExprNotSupported)),
        Pattern::SpaceBefore(..) => Ok(m),
        Pattern::SpaceAfter(..) => Ok(m),
    }
}

/// How a type is written, followed by `sfx`.
pub open spec fn type_out(t: TypeAnnotation, i: nat, sfx: Suffix, m: BufModel) -> Out
    decreases t, 1int, 1int,
{
    match t {
        TypeAnnotation::SpaceBefore(inner, cs) => type_out(*inner, i, sfx, comments_out(m, cs@, i)),
        TypeAnnotation::SpaceAfter(inner, cs) => match type_out(*inner, i, sfx, m) {
            Ok(m1) => Ok(comments_out(m1, cs@, i)),
            Err(x) => Err(x),
        },
        _ => match type_body_out(t, i, m) {
            Ok(m1) => Ok(suffix_out(m1, i, sfx)),
            Err(x) => Err(x),
        },
    }
}

pub open spec fn type_body_out(t: TypeAnnotation, i: nat, m: BufModel) -> Out
    decreases t, 1int, 0int,
{
    match t {
        TypeAnnotation::Function(args, arrow, res) => match types_out(args@, 0, i, false, m) {
            Ok(m1) => type_out(*res, i, Suffix::Empty, m_space(m_push_str(m1, arrow_text(arrow)))),
            Err(x) => Err(x),
        },
        TypeAnnotation::Apply(module_name, name, args) => {
            let m1 = m_push_str(qualifier(m_indent(m, i), module_name@), name@);
            if args@.len() == 0 {
                Ok(m1)
            } else {
                match types_out(args@, 0, i, false, m_push(m1, '(')) {
                    Ok(m2) => Ok(tok(m2, i, ")"@)),
                    Err(x) => Err(x),
                }
            }
        },
        TypeAnnotation::BoundVariable(s) => Ok(tok(m, i, s@)),
        TypeAnnotation::As(lhs, cs, header) => match type_out(*lhs, i, Suffix::Empty, m) {
            Ok(m1) => Ok(header_out(header, i, m_space(tok(comments_out(m1, cs@, i), i, "as"@)))),
            Err(x) => Err(x),
        },
        TypeAnnotation::Record { .. } => type_coll_out(t, i, m),
        TypeAnnotation::Tuple { .. } => type_coll_out(t, i, m),
        TypeAnnotation::TagUnion { .. } => type_coll_out(t, i, m),
        TypeAnnotation::Inferred => Ok(tok(m, i, "_"@)),
        TypeAnnotation::Wildcard => Err((m, MigrateError::WildcardTypeNotSupported)),
        TypeAnnotation::Where(left, clauses) => match type_out(*left, i, Suffix::Empty, m) {
            Ok(m1) => clauses_out(clauses@, 0, i, m1),
            Err(x) => Err(x),
        },
        TypeAnnotation::SpaceBefore(..) => Ok(m),
        TypeAnnotation::SpaceAfter(..) => Ok(m),
    }
}

pub open spec fn clauses_out(s: Seq<ImplementsClause>, k: nat, i: nat, m: BufModel) -> Out
    decreases s, 1int, s.len() - k,
{
    if k >= s.len() {
        Ok(m)
    } else {
        match clause_out(s[k as int], i, m_space(tok(m, i, " where"@))) {
            Ok(m1) => clauses_out(s, k + 1, i, m1),
            Err(x) => Err(x),
        }
    }
}

/// `var implements A & B`
pub open spec fn clause_out(c: ImplementsClause, i: nat, m: BufModel) -> Out
    decreases c, 1int, 1int,
{
    abilities_out(c.abilities@, 0, i, m_space(tok(tok(m, i, c.var@), i, " implements"@)))
}

pub open spec fn abilities_out(s: Seq<TypeAnnotation>, k: nat, i: nat, m: BufModel) -> Out
    decreases s, 1int, s.len() - k,
{
    if k >= s.len() {
        Ok(m)
    } else {
        let m0 = if k > 0 { m_space(m_push(m_space(m_indent(m, i)), '&')) } else { m };
        match type_out(s[k as int], i, Suffix::Empty, m0) {
            Ok(m1) => abilities_out(s, k + 1, i, m1),
            Err(x) => Err(x),
        }
    }
}

/// A record field, followed by `sfx`.
pub open spec fn efield_out(f: AssignedField<Expr>, i: nat, sfx: Suffix, m: BufModel) -> Out
    decreases f, 1int, 1int,
{
    match f {
        AssignedField::RequiredValue(name, cs, v) => expr_out(*v, i, sfx, field_label(m, i, name@, cs@)),
        AssignedField::OptionalValue(name, cs, v) => expr_out(*v, i, sfx, field_label(m, i, name@, cs@)),
        AssignedField::IgnoredValue(name, cs, v) => expr_out(*v, i, sfx, field_label(m, i, seq!['_'] + name@, cs@)),
        AssignedField::LabelOnly(name) => Ok(suffix_out(tok(m, i, name@), i, sfx)),
        AssignedField::SpaceBefore(inner, cs) => efield_out(*inner, i, sfx, comments_out(m, cs@, i)),
        AssignedField::SpaceAfter(inner, cs) => match efield_out(*inner, i, sfx, m) {
            Ok(m1) => Ok(comments_out(m1, cs@, i)),
            Err(x) => Err(x),
        },
    }
}

/// A field of a record type, followed by `sfx`.
pub open spec fn tfield_out(f: AssignedField<TypeAnnotation>, i: nat, sfx: Suffix, m: BufModel) -> Out
    decreases f, 1int, 1int,
{
    match f {
        AssignedField::RequiredValue(name, cs, v) => type_out(*v, i, sfx, field_label(m, i, name@, cs@)),
        AssignedField::OptionalValue(name, cs, v) => type_out(*v, i, sfx, field_label(m, i, name@, cs@)),
        AssignedField::IgnoredValue(name, cs, v) => type_out(*v, i, sfx, field_label(m, i, seq!['_'] + name@, cs@)),
        AssignedField::LabelOnly(name) => Ok(suffix_out(tok(m, i, name@), i, sfx)),
        AssignedField::SpaceBefore(inner, cs) => tfield_out(*inner, i, sfx, comments_out(m, cs@, i)),
        AssignedField::SpaceAfter(inner, cs) => match tfield_out(*inner, i, sfx, m) {
            Ok(m1) => Ok(comments_out(m1, cs@, i)),
            Err(x) => Err(x),
        },
    }
}

/// `name: ` with the comments between name and colon.
pub open spec fn field_label(m: BufModel, i: nat, name: Seq<char>, cs: Seq<CommentOrNewline>) -> BufModel {
    m_space(tok(comments_out(tok(m, i, name), cs, i), i, ":"@))
}

/// The closing part of a collection: its standalone comments and its bracket.
pub open spec fn coll_close(m: BufModel, cs: Seq<CommentOrNewline>, i: nat, b: Braces) -> BufModel {
    m_push(m_indent(comments_out(m, cs, i), i), close_brace(b))
}

/// An empty collection with no comments and no leading part is just its two brackets.
pub open spec fn coll_empty(m: BufModel, i: nat, b: Braces) -> BufModel {
    m_push(m_push(m_indent(m, i), open_brace(b)), close_brace(b))
}

/// A list, tuple or record value; a record update or builder writes its
/// receiver or mapper first.
pub open spec fn expr_coll_out(e: Expr, i: nat, m: BufModel) -> Out
    decreases e, 0int, 0int,
{
    let m0 = m_push(m_indent(m, i), if e is Tuple { '(' } else if e is List { '[' } else { '{' });
    match e {
        Expr::List(c) => if c.items@.len() == 0 && c.final_comments@.len() == 0 {
            Ok(coll_empty(m, i, Braces::Square))
        } else {
            match exprs_out(c.items@, 0, deeper(i), false, m0) {
                Ok(m1) => Ok(coll_close(m1, c.final_comments@, i, Braces::Square)),
                Err(x) => Err(x),
            }
        },
        Expr::Tuple(c) => if c.items@.len() == 0 && c.final_comments@.len() == 0 {
            Ok(coll_empty(m, i, Braces::Round))
        } else {
            match exprs_out(c.items@, 0, deeper(i), false, m0) {
                Ok(m1) => Ok(coll_close(m1, c.final_comments@, i, Braces::Round)),
                Err(x) => Err(x),
            }
        },
        Expr::Record(c) => if c.items@.len() == 0 && c.final_comments@.len() == 0 {
            Ok(coll_empty(m, i, Braces::Curly))
        } else {
            match efields_out(c.items@, 0, deeper(i), m0) {
                Ok(m1) => Ok(coll_close(m1, c.final_comments@, i, Braces::Curly)),
                Err(x) => Err(x),
            }
        },
        Expr::RecordUpdate { update, fields } => match expr_out(*update, i, Suffix::Empty, m0) {
            Ok(mh) => match efields_out(fields.items@, 0, deeper(i), tok(mh, i, "&"@)) {
                Ok(m1) => Ok(coll_close(m1, fields.final_comments@, i, Braces::Curly)),
                Err(x) => Err(x),
            },
            Err(x) => Err(x),
        },
        Expr::RecordBuilder { mapper, fields } => match expr_out(*mapper, i, Suffix::Empty, m0) {
            Ok(mh) => match efields_out(fields.items@, 0, deeper(i), tok(mh, i, "<-"@)) {
                Ok(m1) => Ok(coll_close(m1, fields.final_comments@, i, Braces::Curly)),
                Err(x) => Err(x),
            },
            Err(x) => Err(x),
        },
        _ => Ok(m),
    }
}

pub open spec fn pattern_coll_out(p: Pattern, i: nat, m: BufModel) -> Out
    decreases p, 0int, 0int,
{
    match p {
        Pattern::RecordDestructure(c) => patterns_coll(c.items@, c.final_comments@, Braces::Curly, i, m),
        Pattern::Tuple(c) => patterns_coll(c.items@, c.final_comments@, Braces::Round, i, m),
        Pattern::List(c) => patterns_coll(c.items@, c.final_comments@, Braces::Square, i, m),
        _ => Ok(m),
    }
}

pub open spec fn patterns_coll(s: Seq<Pattern>, cs: Seq<CommentOrNewline>, b: Braces, i: nat, m: BufModel) -> Out
    decreases s, 1int, s.len() + 1,
{
    if s.len() == 0 && cs.len() == 0 {
        Ok(coll_empty(m, i, b))
    } else {
        match patterns_out(s, 0, deeper(i), false, m_push(m_indent(m, i), open_brace(b))) {
            Ok(m1) => Ok(coll_close(m1, cs, i, b)),
            Err(x) => Err(x),
        }
    }
}

/// The `..ext` tail of an open record, tuple or tag union type.
pub open spec fn ext_out(ext: Option<Box<TypeAnnotation>>, i: nat, m: BufModel) -> Out
    decreases ext, 1int, 1int,
{
    match ext {
        Some(x) => type_out(*x, i, Suffix::Empty, tok(m, i, ".."@)),
        None => Ok(m),
    }
}

pub open spec fn type_coll_out(t: TypeAnnotation, i: nat, m: BufModel) -> Out
    decreases t, 0int, 0int,
{
    match t {
        TypeAnnotation::Record { fields, ext } => if fields.items@.len() == 0 && fields.final_comments@.len() == 0 && ext is None {
            Ok(coll_empty(m, i, Braces::Curly))
        } else {
            match tfields_out(fields.items@, 0, deeper(i), ext is Some, m_push(m_indent(m, i), '{')) {
                Ok(m1) => match ext_out(ext, i, m1) {
                    Ok(m2) => Ok(coll_close(m2, fields.final_comments@, i, Braces::Curly)),
                    Err(x) => Err(x),
                },
                Err(x) => Err(x),
            }
        },
        TypeAnnotation::Tuple { elems, ext } => if elems.items@.len() == 0 && elems.final_comments@.len() == 0 && ext is None {
            Ok(coll_empty(m, i, Braces::Round))
        } else {
            match types_out(elems.items@, 0, deeper(i), ext is Some, m_push(m_indent(m, i), '(')) {
                Ok(m1) => match ext_out(ext, i, m1) {
                    Ok(m2) => Ok(coll_close(m2, elems.final_comments@, i, Braces::Round)),
                    Err(x) => Err(x),
                },
                Err(x) => Err(x),
            }
        },
        TypeAnnotation::TagUnion { tags, ext } => if tags.items@.len() == 0 && tags.final_comments@.len() == 0 && ext is None {
            Ok(coll_empty(m, i, Braces::Square))
        } else {
            match types_out(tags.items@, 0, deeper(i), ext is Some, m_push(m_indent(m, i), '[')) {
                Ok(m1) => match ext_out(ext, i, m1) {
                    Ok(m2) => Ok(coll_close(m2, tags.final_comments@, i, Braces::Square)),
                    Err(x) => Err(x),
                },
                Err(x) => Err(x),
            }
        },
        _ => Ok(m),
    }
}

/// The rewritten operator tree `t` of the chain `e`, followed by `sfx`.
pub open spec fn conv_out(e: Expr, t: MigratedBinOp, i: nat, sfx: Suffix, m: BufModel) -> Out
    decreases e, 0int, tree_size(t),
{
    match e {
        Expr::BinOps(pairs, last) => match t {
            MigratedBinOp::BinOp { lhs, op, rhs } => match conv_out(e, *lhs, i, Suffix::Empty, m) {
                Ok(m1) => conv_out(e, *rhs, i, sfx, m_space(m_push_str(m_space(m_indent(m1, i)), op_text(op)))),
                Err(x) => Err(x),
            },
            MigratedBinOp::Expr(j) => expr_out(operand_of(pairs@, *last, j as int), i, sfx, m),
            MigratedBinOp::Parens(inner) => match conv_out(e, *inner, i, Suffix::Empty, m_push(m, '(')) {
                Ok(m1) => Ok(suffix_out(tok(m1, i, ")"@), i, sfx)),
                Err(x) => Err(x),
            },
            MigratedBinOp::StaticDispatch { lhs, rhs } => match conv_out(e, *lhs, i, Suffix::Empty, m) {
                Ok(m1) => dispatch_out(operand_of(pairs@, *last, rhs as int), true, i, sfx, m1),
                Err(x) => Err(x),
            },
            MigratedBinOp::FuncStaticDispatch { lhs, rhs } => match conv_out(e, *lhs, i, Suffix::Empty, m) {
                Ok(m1) => dispatch_out(operand_of(pairs@, *last, rhs as int), false, i, sfx, m1),
                Err(x) => Err(x),
            },
        },
        _ => Ok(m),
    }
}

pub open spec fn dispatch_out(target: Expr, is_static: bool, i: nat, sfx: Suffix, m: BufModel) -> Out
    decreases target, 1int, 3int,
{
    match target {
        Expr::SpaceBefore(inner, before) => match *inner {
            Expr::SpaceAfter(item, after) => dispatch_parts_out(*item, before@, after@, is_static, i, sfx, m),
            _ => dispatch_parts_out(*inner, before@, Seq::empty(), is_static, i, sfx, m),
        },
        Expr::SpaceAfter(inner, after) => match *inner {
            Expr::SpaceBefore(item, before) => dispatch_parts_out(*item, before@, after@, is_static, i, sfx, m),
            _ => dispatch_parts_out(*inner, Seq::empty(), after@, is_static, i, sfx, m),
        },
        _ => dispatch_parts_out(target, Seq::empty(), Seq::empty(), is_static, i, sfx, m),
    }
}

/// The method name of a call `f(..)` or bare name `f` that a pipe feeds.
pub open spec fn method_ident(item: Expr) -> Seq<char> {
    match callee(item) {
        Expr::Var { ident, .. } => ident@,
        _ => Seq::empty(),
    }
}

/// `.f(args)` for a builtin operation, or `.(f)(args)` for a function value,
/// with the comments that wrapped the call around it.
pub open spec fn dispatch_parts_out(item: Expr, before: Seq<CommentOrNewline>, after: Seq<CommentOrNewline>, is_static: bool, i: nat, sfx: Suffix, m: BufModel) -> Out
    decreases item, 1int, 2int,
{
    let m1 = tok(comments_out(m, before, i), i, "."@);
    let called = if is_static {
        Ok(m_push(m_ident(m1, method_ident(item)), '('))
    } else {
        match item {
            Expr::Apply(f, _) => match expr_out(*f, i, Suffix::Empty, m_push(m1, '(')) {
                Ok(m2) => Ok(m_push(m_push(m2, ')'), '(')),
                Err(x) => Err(x),
            },
            Expr::PncApply(f, _) => match expr_out(*f, i, Suffix::Empty, m_push(m1, '(')) {
                Ok(m2) => Ok(m_push(m_push(m2, ')'), '(')),
                Err(x) => Err(x),
            },
            _ => match expr_body_out(item, i, m_push(m1, '(')) {
                Ok(m2) => Ok(m_push(m_push(m2, ')'), '(')),
                Err(x) => Err(x),
            },
        }
    };
    match called {
        Ok(m3) => {
            let args = match item {
                Expr::Apply(_, args) => exprs_out(args@, 0, i, false, m3),
                Expr::PncApply(_, c) => match exprs_out(c.items@, 0, i, false, m3) {
                    Ok(m4) => Ok(comments_out(m4, c.final_comments@, i)),
                    Err(x) => Err(x),
                },
                _ => Ok(m3),
            };
            match args {
                Ok(m5) => Ok(comments_out(suffix_out(tok(m5, i, ")"@), i, sfx), after, i)),
                Err(x) => Err(x),
            }
        },
        Err(x) => Err(x),
    }
}

} // verus!

verus! {

/// A whole top-level expression: definitions at the left margin, then the
/// expression they scope over, with the comments around it.
pub open spec fn top_level_out(e: Expr, i: nat, m: BufModel) -> Out {
    let st = strip_spaces(e);
    let body = match st.item {
        Expr::Defs(defs, fin) => match entries_out(defs.entries@, 0, 0, comments_out(m, st.before, i)) {
            Ok(m1) => expr_out(*fin, i, Suffix::Empty, m1),
            Err(x) => Err(x),
        },
        _ => expr_out(st.item, i, Suffix::Empty, comments_out(m, st.before, i)),
    };
    match body {
        Ok(m2) => Ok(comments_out(m2, st.after, i)),
        Err(x) => Err(x),
    }
}

/// The rendering outcome that a call returning `r` left in a buffer `m`.
pub open spec fn outcome(r: Result<(), MigrateError>, m: BufModel) -> Out {
    match r {
        Ok(_) => Ok(m),
        Err(x) => Err((m, x)),
    }
}

pub open spec fn opt_comments(o: Option<&Vec<CommentOrNewline>>) -> Seq<CommentOrNewline> {
    match o {
        Some(v) => v@,
        None => Seq::empty(),
    }
}

} // verus!
