use vstd::prelude::*;

use crate::ast::{
    AssignedField, Base, BinOp, Collection, CommentOrNewline, Def, DefEntry, Defs,
    IngestedFileImport, ModuleHeader, ModuleImport, ModuleImportParams, Expr, FunctionArrow,
    ImplementsClause, Pattern, TypeAnnotation, TypeDef, TypeHeader, UnaryOp, ValueDef, WhenBranch,
};
use crate::buf::{grows, Buf};
use crate::rewrite::{extract_spaces, migrate_pizza, operand, MigrateError, MigratedBinOp};
use crate::rules::{
    Braces, Out, Suffix, abilities_out, entries_between, top_level_out, names_coll, ingested_import_out, import_head, import_tail, import_params_out, module_import_out, module_header_out, block_out, branch_out, branch_patterns_out, branches_out, clause_out, clauses_out, close_brace, coll_close, coll_empty, comment_out, comments_out, conv_out, dbg_args_out, deeper, def_out, dispatch_out, dispatch_parts_out, efield_out, efields_out, entries_out, entry_out, expr_body_out, expr_coll_out, expr_out, exprs_out, ext_out, field_label, header_out, if_thens_out, method_ident, names_out, non_base10, op_text, open_brace, opt_comments, outcome, pattern_body_out, pattern_out, patterns_coll, patterns_out, qualifier, quoted, suffix_out, tfield_out, tfields_out, tok, type_body_out, type_coll_out, type_out, types_out,
};

verus! {

pub fn deeper_indent(i: usize) -> (r: usize)
    ensures
        r as nat == deeper(i as nat),
{
    if i <= usize::MAX - 4 { i + 4 } else { i }
}

fn push_tok(buf: &mut Buf, indent: usize, s: &str)
    ensures
        grows(old(buf)@, final(buf)@),
        final(buf)@ == tok(old(buf)@, indent as nat, s@),
{
    buf.indent(indent);
    buf.push_str(s);
}

fn push_tok_chars(buf: &mut Buf, indent: usize, s: &Vec<char>)
    ensures
        grows(old(buf)@, final(buf)@),
        final(buf)@ == tok(old(buf)@, indent as nat, s@),
{
    buf.indent(indent);
    buf.push_chars(s);
}

fn push_quoted(buf: &mut Buf, q: char, s: &Vec<char>)
    ensures
        grows(old(buf)@, final(buf)@),
        final(buf)@ == quoted(old(buf)@, q, s@),
{
    buf.push(q);
    buf.push_chars(s);
    buf.push(q);
}

fn push_qualifier(buf: &mut Buf, module_name: &Vec<char>)
    ensures
        grows(old(buf)@, final(buf)@),
        final(buf)@ == qualifier(old(buf)@, module_name@),
{
    if module_name.len() > 0 {
        buf.push_chars(module_name);
        buf.push('.');
    }
}

fn push_non_base10(buf: &mut Buf, string: &Vec<char>, base: Base, is_negative: bool)
    ensures
        grows(old(buf)@, final(buf)@),
        final(buf)@ == non_base10(old(buf)@, string@, base, is_negative),
{
    if is_negative {
        buf.push('-');
    }
    match base {
        Base::Hex => buf.push_str("0x"),
        Base::Octal => buf.push_str("0o"),
        Base::Binary => buf.push_str("0b"),
        Base::Decimal => {},
    }
    buf.push_chars(string);
}

/// Writes the token that `suffix` asks for.
pub fn fmt_suffix(buf: &mut Buf, indent: usize, suffix: Suffix)
    ensures
        grows(old(buf)@, final(buf)@),
        final(buf)@ == suffix_out(old(buf)@, indent as nat, suffix),
{
    buf.indent(indent);
    match suffix {
        Suffix::Empty => {},
        Suffix::Comma => buf.push(','),
        Suffix::OpenRound => buf.push('('),
        Suffix::Question => buf.push('?'),
    }
}

fn fmt_comment(buf: &mut Buf, c: &CommentOrNewline, indent: usize)
    ensures
        grows(old(buf)@, final(buf)@),
        final(buf)@ == comment_out(old(buf)@, *c, indent as nat),
{
    match c {
        CommentOrNewline::Newline => buf.newline(),
        CommentOrNewline::LineComment(t) => {
            buf.ensure_ends_with_whitespace();
            push_tok(buf, indent, "#");
            buf.push_chars(t);
            buf.newline();
        },
        CommentOrNewline::DocComment(t) => {
            buf.ensure_ends_with_whitespace();
            push_tok(buf, indent, "##");
            buf.push_chars(t);
            buf.newline();
        },
    }
}

/// Writes comments and line breaks, in order.
pub fn fmt_spaces(buf: &mut Buf, cs: &Vec<CommentOrNewline>, indent: usize)
    ensures
        grows(old(buf)@, final(buf)@),
        final(buf)@ == comments_out(old(buf)@, cs@, indent as nat),
{
    let ghost m0 = buf@;
    let mut k: usize = 0;
    while k < cs.len()
        invariant
            k <= cs@.len(),
            buf@ == comments_out(m0, cs@.subrange(0, k as int), indent as nat),
            grows(m0, buf@),
        decreases cs@.len() - k,
    {
        fmt_comment(buf, &cs[k], indent);
        proof {
            let next = cs@.subrange(0, k as int + 1);
            assert(next.drop_last() =~= cs@.subrange(0, k as int));
        }
        k = k + 1;
    }
    assert(cs@.subrange(0, k as int) =~= cs@);
}

fn fmt_spaces_opt(buf: &mut Buf, cs: Option<&Vec<CommentOrNewline>>, indent: usize)
    ensures
        grows(old(buf)@, final(buf)@),
        final(buf)@ == comments_out(old(buf)@, opt_comments(cs), indent as nat),
{
    match cs {
        Some(v) => fmt_spaces(buf, v, indent),
        None => {},
    }
}

fn fmt_names(buf: &mut Buf, s: &Vec<Vec<char>>, k: usize, indent: usize)
    requires
        k <= s@.len(),
    ensures
        grows(old(buf)@, final(buf)@),
        final(buf)@ == names_out(s@, k as nat, indent as nat, old(buf)@),
    decreases s@.len() - k,
{
    if k < s.len() {
        let is_last = k == s.len() - 1;
        push_tok_chars(buf, indent, &s[k]);
        fmt_suffix(buf, indent, if is_last { Suffix::Empty } else { Suffix::Comma });
        if !is_last {
            buf.spaces();
        }
        fmt_names(buf, s, k + 1, indent);
    }
}

fn fmt_type_header(buf: &mut Buf, h: &TypeHeader, indent: usize)
    ensures
        grows(old(buf)@, final(buf)@),
        final(buf)@ == header_out(*h, indent as nat, old(buf)@),
{
    push_tok_chars(buf, indent, &h.name);
    if h.vars.len() > 0 {
        buf.push('(');
        fmt_names(buf, &h.vars, 0, indent);
        buf.indent(indent);
        buf.push(')');
    }
}

/// Writes an expression followed by `suffix`. Comment wrappers pass the
/// suffix on to what they wrap, so that it comes before their comments.
pub fn fmt_expr(buf: &mut Buf, indent: usize, expr: &Expr, suffix: Suffix) -> (r: Result<(), MigrateError>)
    ensures
        grows(old(buf)@, final(buf)@),
        expr_out(*expr, indent as nat, suffix, old(buf)@) == outcome(r, final(buf)@),
    decreases expr, 1int, 1int,
{
    match expr {
        Expr::SpaceBefore(inner, cs) => {
            fmt_spaces(buf, cs, indent);
            fmt_expr(buf, indent, inner, suffix)
        },
        Expr::SpaceAfter(inner, cs) => {
            fmt_expr(buf, indent, inner, suffix)?;
            fmt_spaces(buf, cs, indent);
            Ok(())
        },
        _ => {
            fmt_expr_body(buf, indent, expr)?;
            fmt_suffix(buf, indent, suffix);
            Ok(())
        },
    }
}

fn fmt_expr_body(buf: &mut Buf, indent: usize, expr: &Expr) -> (r: Result<(), MigrateError>)
    ensures
        grows(old(buf)@, final(buf)@),
        expr_body_out(*expr, indent as nat, old(buf)@) == outcome(r, final(buf)@),
    decreases expr, 1int, 0int,
{
    match expr {
        Expr::Float(s) | Expr::Num(s) | Expr::Tag(s) | Expr::OpaqueRef(s) => {
            push_tok_chars(buf, indent, s);
        },
        Expr::SingleQuote(s) => {
            buf.indent(indent);
            push_quoted(buf, '\'', s);
        },
        Expr::NonBase10Int { string, base, is_negative } => {
            buf.indent(indent);
            push_non_base10(buf, string, *base, *is_negative);
        },
        Expr::Str(s) => {
            buf.indent(indent);
            push_quoted(buf, '"', s);
        },
        Expr::Var { module_name, ident } => {
            buf.indent(indent);
            push_qualifier(buf, module_name);
            buf.push_ident(ident);
        },
        Expr::Underscore(s) => {
            push_tok(buf, indent, "_");
            buf.push_chars(s);
        },
        Expr::Crash => push_tok(buf, indent, "crash"),
        Expr::Dbg => push_tok(buf, indent, "dbg"),
        Expr::Try => push_tok(buf, indent, "try"),
        Expr::RecordAccess(inner, name) | Expr::TupleAccess(inner, name) => {
            buf.indent(indent);
            fmt_expr(buf, indent, inner, Suffix::Empty)?;
            buf.push('.');
            buf.push_chars(name);
        },
        Expr::AccessorFunction(s) => {
            push_tok(buf, indent, ".");
            buf.push_chars(s);
        },
        Expr::RecordUpdater(s) => {
            push_tok(buf, indent, "&");
            buf.push_chars(s);
        },
        Expr::TrySuffix(inner) => {
            fmt_expr(buf, indent, inner, Suffix::Question)?;
        },
        Expr::List(_) | Expr::Tuple(_) | Expr::Record(_) | Expr::RecordUpdate { .. } | Expr::RecordBuilder { .. } => {
            fmt_expr_collection(buf, indent, expr)?;
        },
        Expr::Closure(args, body) => {
            push_tok(buf, indent, "|");
            fmt_patterns(buf, args, 0, indent, false)?;
            push_tok(buf, indent, "|");
            buf.spaces();
            fmt_expr(buf, indent, body, Suffix::Empty)?;
        },
        Expr::Defs(defs, fin) => {
            push_tok(buf, indent, "{");
            buf.ensure_ends_with_newline();
            let inner = deeper_indent(indent);
            fmt_entries(buf, &defs.entries, 0, inner)?;
            fmt_expr(buf, inner, fin, Suffix::Empty)?;
            buf.ensure_ends_with_newline();
            push_tok(buf, indent, "}");
        },
        Expr::DbgStmt { first, extra_args, continuation } => {
            push_tok(buf, indent, "dbg");
            buf.spaces();
            fmt_expr(buf, indent, first, Suffix::Empty)?;
            fmt_dbg_args(buf, extra_args, 0, indent)?;
            buf.ensure_ends_with_newline();
            fmt_expr(buf, indent, continuation, Suffix::Empty)?;
        },
        Expr::Apply(f, args) => {
            fmt_expr(buf, indent, f, Suffix::OpenRound)?;
            fmt_exprs(buf, args, 0, indent, false)?;
            push_tok(buf, indent, ")");
        },
        Expr::PncApply(f, c) => {
            fmt_expr(buf, indent, f, Suffix::OpenRound)?;
            fmt_exprs(buf, &c.items, 0, indent, false)?;
            fmt_spaces(buf, &c.final_comments, indent);
            push_tok(buf, indent, ")");
        },
        Expr::BinOps(pairs, last) => {
            let converted = migrate_pizza(pairs, last, buf.snakify())?;
            fmt_converted_ops(buf, indent, expr, &converted, Suffix::Empty)?;
        },
        Expr::UnaryOp(inner, op) => {
            match op {
                UnaryOp::Negate => push_tok(buf, indent, "-"),
                UnaryOp::Not => push_tok(buf, indent, "!"),
            }
            fmt_expr(buf, indent, inner, Suffix::Empty)?;
        },
        Expr::If { if_thens, final_else } => {
            fmt_if_thens(buf, if_thens, 0, indent)?;
            buf.indent(indent);
            buf.spaces();
            buf.push_str("else");
            buf.spaces();
            fmt_expr_ensure_block(buf, indent, final_else)?;
        },
        Expr::When(cond, branches) => {
            push_tok(buf, indent, "match");
            buf.spaces();
            fmt_expr(buf, indent, cond, Suffix::Empty)?;
            buf.indent(indent);
            buf.spaces();
            buf.push('{');
            buf.ensure_ends_with_newline();
            fmt_branches(buf, branches, 0, indent)?;
            push_tok(buf, indent, "}");
        },
        Expr::Return(v, cont) => {
            push_tok(buf, indent, "return");
            buf.spaces();
            fmt_expr(buf, indent, v, Suffix::Empty)?;
            buf.ensure_ends_with_newline();
            match cont {
                Some(c) => {
                    fmt_expr(buf, indent, c, Suffix::Empty)?;
                },
                None => {},
            }
        },
        Expr::ParensAround(inner) => {
            push_tok(buf, indent, "(");
            fmt_expr(buf, indent, inner, Suffix::Empty)?;
            push_tok(buf, indent, ")");
        },
        Expr::MalformedIdent(_) => {
            return Err(MigrateError::MalformedIdentNotSupported);
        },
        Expr::PrecedenceConflict => {
            return Err(MigrateError::PrecedenceConflictNotSupported);
        },
        Expr::SpaceBefore(..) | Expr::SpaceAfter(..) => {},
    }
    Ok(())
}

/// Writes a block body: definitions as they are, anything else between
/// braces one level deeper.
fn fmt_expr_ensure_block(buf: &mut Buf, indent: usize, expr: &Expr) -> (r: Result<(), MigrateError>)
    ensures
        grows(old(buf)@, final(buf)@),
        block_out(*expr, indent as nat, old(buf)@) == outcome(r, final(buf)@),
    decreases expr, 1int, 2int,
{
    if let Expr::Defs(..) = expr {
        fmt_expr(buf, indent, expr, Suffix::Empty)
    } else {
        push_tok(buf, indent, "{");
        buf.ensure_ends_with_newline();
        fmt_expr(buf, deeper_indent(indent), expr, Suffix::Empty)?;
        buf.ensure_ends_with_newline();
        push_tok(buf, indent, "}");
        Ok(())
    }
}

fn fmt_exprs(buf: &mut Buf, s: &Vec<Expr>, k: usize, indent: usize, tail: bool) -> (r: Result<(), MigrateError>)
    requires
        k <= s@.len(),
    ensures
        grows(old(buf)@, final(buf)@),
        exprs_out(s@, k as nat, indent as nat, tail, old(buf)@) == outcome(r, final(buf)@),
    decreases s@, 1int, s@.len() - k,
{
    if k < s.len() {
        let is_last = k == s.len() - 1 && !tail;
        fmt_expr(buf, indent, &s[k], if is_last { Suffix::Empty } else { Suffix::Comma })?;
        if !is_last {
            buf.spaces();
        }
        fmt_exprs(buf, s, k + 1, indent, tail)
    } else {
        Ok(())
    }
}

fn fmt_patterns(buf: &mut Buf, s: &Vec<Pattern>, k: usize, indent: usize, tail: bool) -> (r: Result<(), MigrateError>)
    requires
        k <= s@.len(),
    ensures
        grows(old(buf)@, final(buf)@),
        patterns_out(s@, k as nat, indent as nat, tail, old(buf)@) == outcome(r, final(buf)@),
    decreases s@, 1int, s@.len() - k,
{
    if k < s.len() {
        let is_last = k == s.len() - 1 && !tail;
        fmt_pattern(buf, indent, &s[k], if is_last { Suffix::Empty } else { Suffix::Comma })?;
        if !is_last {
            buf.spaces();
        }
        fmt_patterns(buf, s, k + 1, indent, tail)
    } else {
        Ok(())
    }
}

fn fmt_types(buf: &mut Buf, s: &Vec<TypeAnnotation>, k: usize, indent: usize, tail: bool) -> (r: Result<(), MigrateError>)
    requires
        k <= s@.len(),
    ensures
        grows(old(buf)@, final(buf)@),
        types_out(s@, k as nat, indent as nat, tail, old(buf)@) == outcome(r, final(buf)@),
    decreases s@, 1int, s@.len() - k,
{
    if k < s.len() {
        let is_last = k == s.len() - 1 && !tail;
        fmt_type(buf, indent, &s[k], if is_last { Suffix::Empty } else { Suffix::Comma })?;
        if !is_last {
            buf.spaces();
        }
        fmt_types(buf, s, k + 1, indent, tail)
    } else {
        Ok(())
    }
}

fn fmt_efields(buf: &mut Buf, s: &Vec<AssignedField<Expr>>, k: usize, indent: usize) -> (r: Result<(), MigrateError>)
    requires
        k <= s@.len(),
    ensures
        grows(old(buf)@, final(buf)@),
        efields_out(s@, k as nat, indent as nat, old(buf)@) == outcome(r, final(buf)@),
    decreases s@, 1int, s@.len() - k,
{
    if k < s.len() {
        let is_last = k == s.len() - 1;
        fmt_efield(buf, indent, &s[k], if is_last { Suffix::Empty } else { Suffix::Comma })?;
        if !is_last {
            buf.spaces();
        }
        fmt_efields(buf, s, k + 1, indent)
    } else {
        Ok(())
    }
}

fn fmt_tfields(buf: &mut Buf, s: &Vec<AssignedField<TypeAnnotation>>, k: usize, indent: usize, tail: bool) -> (r: Result<(), MigrateError>)
    requires
        k <= s@.len(),
    ensures
        grows(old(buf)@, final(buf)@),
        tfields_out(s@, k as nat, indent as nat, tail, old(buf)@) == outcome(r, final(buf)@),
    decreases s@, 1int, s@.len() - k,
{
    if k < s.len() {
        let is_last = k == s.len() - 1 && !tail;
        fmt_tfield(buf, indent, &s[k], if is_last { Suffix::Empty } else { Suffix::Comma })?;
        if !is_last {
            buf.spaces();
        }
        fmt_tfields(buf, s, k + 1, indent, tail)
    } else {
        Ok(())
    }
}

fn fmt_dbg_args(buf: &mut Buf, s: &Vec<Expr>, k: usize, indent: usize) -> (r: Result<(), MigrateError>)
    requires
        k <= s@.len(),
    ensures
        grows(old(buf)@, final(buf)@),
        dbg_args_out(s@, k as nat, indent as nat, old(buf)@) == outcome(r, final(buf)@),
    decreases s@, 1int, s@.len() - k,
{
    if k < s.len() {
        buf.push(',');
        buf.spaces();
        fmt_expr(buf, indent, &s[k], Suffix::Empty)?;
        fmt_dbg_args(buf, s, k + 1, indent)
    } else {
        Ok(())
    }
}

fn fmt_if_thens(buf: &mut Buf, s: &Vec<(Expr, Expr)>, k: usize, indent: usize) -> (r: Result<(), MigrateError>)
    requires
        k <= s@.len(),
    ensures
        grows(old(buf)@, final(buf)@),
        if_thens_out(s@, k as nat, indent as nat, old(buf)@) == outcome(r, final(buf)@),
    decreases s@, 1int, s@.len() - k,
{
    if k < s.len() {
        if k == 0 {
            push_tok(buf, indent, "if");
        } else {
            push_tok(buf, indent, "else if");
        }
        buf.spaces();
        fmt_expr(buf, indent, &s[k].0, Suffix::Empty)?;
        buf.spaces();
        fmt_expr_ensure_block(buf, indent, &s[k].1)?;
        fmt_if_thens(buf, s, k + 1, indent)
    } else {
        Ok(())
    }
}

fn fmt_branches(buf: &mut Buf, s: &Vec<WhenBranch>, k: usize, indent: usize) -> (r: Result<(), MigrateError>)
    requires
        k <= s@.len(),
    ensures
        grows(old(buf)@, final(buf)@),
        branches_out(s@, k as nat, indent as nat, old(buf)@) == outcome(r, final(buf)@),
    decreases s@, 1int, s@.len() - k,
{
    if k < s.len() {
        fmt_branch(buf, &s[k], indent)?;
        fmt_branches(buf, s, k + 1, indent)
    } else {
        Ok(())
    }
}

fn fmt_branch(buf: &mut Buf, b: &WhenBranch, indent: usize) -> (r: Result<(), MigrateError>)
    ensures
        grows(old(buf)@, final(buf)@),
        branch_out(*b, indent as nat, old(buf)@) == outcome(r, final(buf)@),
    decreases b, 1int, 1int,
{
    fmt_branch_patterns(buf, &b.patterns, 0, indent)?;
    let inner = deeper_indent(indent);
    match &b.guard {
        Some(g) => {
            push_tok(buf, indent, " if");
            buf.spaces();
            fmt_expr(buf, inner, g, Suffix::Empty)?;
        },
        None => {},
    }
    push_tok(buf, indent, "->");
    fmt_expr(buf, inner, &b.value, Suffix::Empty)
}

fn fmt_branch_patterns(buf: &mut Buf, s: &Vec<Pattern>, k: usize, indent: usize) -> (r: Result<(), MigrateError>)
    requires
        k <= s@.len(),
    ensures
        grows(old(buf)@, final(buf)@),
        branch_patterns_out(s@, k as nat, indent as nat, old(buf)@) == outcome(r, final(buf)@),
    decreases s@, 1int, s@.len() - k,
{
    if k < s.len() {
        if k != 0 {
            push_tok(buf, indent, " |");
            buf.spaces();
        }
        fmt_pattern(buf, deeper_indent(indent), &s[k], Suffix::Empty)?;
        fmt_branch_patterns(buf, s, k + 1, indent)
    } else {
        Ok(())
    }
}

fn fmt_entries(buf: &mut Buf, s: &Vec<DefEntry>, k: usize, indent: usize) -> (r: Result<(), MigrateError>)
    requires
        k <= s@.len(),
    ensures
        grows(old(buf)@, final(buf)@),
        entries_out(s@, k as nat, indent as nat, old(buf)@) == outcome(r, final(buf)@),
        r is Err ==> exists|j: nat| #![trigger entries_between(s@, k as nat, j, indent as nat, old(buf)@)]
            k <= j < s@.len()
            && (entries_between(s@, k as nat, j, indent as nat, old(buf)@) matches Ok(mj) && grows(mj, final(buf)@)),
    decreases s@, 1int, s@.len() - k,
{
    if k < s.len() {
        let ghost m0 = buf@;
        let first = fmt_entry(buf, &s[k], indent);
        if let Err(x) = first {
            assert(entries_between(s@, k as nat, k as nat, indent as nat, m0) == Out::Ok(m0));
            return Err(x);
        }
        let ghost m1 = buf@;
        let rest = fmt_entries(buf, s, k + 1, indent);
        proof {
            if rest is Err {
                let j = choose|j: nat| #![trigger entries_between(s@, (k + 1) as nat, j, indent as nat, m1)]
                    k + 1 <= j < s@.len()
                    && (entries_between(s@, (k + 1) as nat, j, indent as nat, m1) matches Ok(mj) && grows(mj, buf@));
                assert(entries_between(s@, k as nat, j, indent as nat, m0) == entries_between(s@, (k + 1) as nat, j, indent as nat, m1));
            }
        }
        rest
    } else {
        Ok(())
    }
}

fn fmt_entry(buf: &mut Buf, d: &DefEntry, indent: usize) -> (r: Result<(), MigrateError>)
    ensures
        grows(old(buf)@, final(buf)@),
        entry_out(*d, indent as nat, old(buf)@) == outcome(r, final(buf)@),
    decreases d, 1int, 1int,
{
    fmt_spaces(buf, &d.before, indent);
    fmt_def(buf, &d.def, indent)?;
    fmt_spaces(buf, &d.after, indent);
    Ok(())
}

#[verifier::rlimit(60)]
fn fmt_def(buf: &mut Buf, d: &Def, indent: usize) -> (r: Result<(), MigrateError>)
    ensures
        grows(old(buf)@, final(buf)@),
        def_out(*d, indent as nat, old(buf)@) == outcome(r, final(buf)@),
    decreases d, 1int, 1int,
{
    match d {
        Def::Type(td) => match td {
            TypeDef::Alias { header, ann } => {
                fmt_type_header(buf, header, indent);
                buf.push_str(" :");
                buf.spaces();
                fmt_type(buf, indent, ann, Suffix::Empty)
            },
            TypeDef::Opaque { .. } => Err(MigrateError::OpaqueNotSupported),
            TypeDef::Ability { .. } => Err(MigrateError::AbilitiesNotSupported),
        },
        Def::Value(vd) => match vd {
            ValueDef::Annotation(p, t) => {
                fmt_pattern(buf, indent, p, Suffix::Empty)?;
                push_tok(buf, indent, ":");
                buf.spaces();
                fmt_type(buf, indent, t, Suffix::Empty)
            },
            ValueDef::Body(p, body) => {
                fmt_pattern(buf, indent, p, Suffix::Empty)?;
                push_tok(buf, indent, " =");
                buf.spaces();
                fmt_expr(buf, indent, body, Suffix::Empty)
            },
            ValueDef::AnnotatedBody { ann_pattern, ann_type, lines_between, body_pattern, body_expr } => {
                fmt_pattern(buf, indent, ann_pattern, Suffix::Empty)?;
                push_tok(buf, indent, ":");
                buf.spaces();
                fmt_type(buf, indent, ann_type, Suffix::Empty)?;
                fmt_spaces(buf, lines_between, indent);
                fmt_pattern(buf, indent, body_pattern, Suffix::Empty)?;
                push_tok(buf, indent, " =");
                buf.spaces();
                fmt_expr(buf, indent, body_expr, Suffix::Empty)
            },
            ValueDef::Dbg(c) => {
                push_tok(buf, indent, "dbg");
                buf.spaces();
                fmt_expr(buf, indent, c, Suffix::Empty)
            },
            ValueDef::Expect(c) => {
                push_tok(buf, indent, "expect");
                buf.spaces();
                fmt_expr(buf, indent, c, Suffix::Empty)
            },
            ValueDef::ModuleImport(mi) => fmt_module_import(buf, mi, indent),
            ValueDef::IngestedFileImport(fi) => fmt_ingested_import(buf, fi, indent),
            ValueDef::Stmt(c) => fmt_expr(buf, indent, c, Suffix::Empty),
        },
    }
}

fn fmt_names_collection(buf: &mut Buf, indent: usize, c: &Collection<Vec<char>>, b: Braces)
    ensures
        grows(old(buf)@, final(buf)@),
        final(buf)@ == names_coll(c.items@, c.final_comments@, b, indent as nat, old(buf)@),
{
    if c.items.len() == 0 && c.final_comments.len() == 0 {
        fmt_collection_empty(buf, indent, b);
    } else {
        buf.indent(indent);
        push_brace(buf, b, true);
        fmt_names(buf, &c.items, 0, deeper_indent(indent));
        fmt_collection_close(buf, indent, &c.final_comments, b);
    }
}

fn fmt_import_head(buf: &mut Buf, indent: usize, mi: &ModuleImport)
    ensures
        grows(old(buf)@, final(buf)@),
        final(buf)@ == import_head(old(buf)@, indent as nat, mi.before_name@, mi.package, mi.name@),
{
    push_tok(buf, indent, "import");
    buf.spaces();
    fmt_spaces(buf, &mi.before_name, indent);
    buf.indent(indent);
    match &mi.package {
        Some(p) => {
            buf.push_chars(p);
            buf.push('.');
        },
        None => {},
    }
    buf.push_chars(&mi.name);
}

fn fmt_import_tail(buf: &mut Buf, indent: usize, alias: &Option<Vec<char>>, exposed: &Option<Collection<Vec<char>>>)
    ensures
        grows(old(buf)@, final(buf)@),
        final(buf)@ == import_tail(old(buf)@, indent as nat, *alias, *exposed),
{
    match alias {
        Some(a) => {
            buf.spaces();
            push_tok(buf, indent, "as");
            buf.spaces();
            push_tok_chars(buf, indent, a);
        },
        None => {},
    }
    match exposed {
        Some(c) => {
            buf.spaces();
            push_tok(buf, indent, "exposing");
            buf.spaces();
            fmt_names_collection(buf, indent, c, Braces::Square);
        },
        None => {},
    }
    buf.ensure_ends_with_newline();
}

fn fmt_import_params(buf: &mut Buf, indent: usize, p: &ModuleImportParams) -> (r: Result<(), MigrateError>)
    ensures
        grows(old(buf)@, final(buf)@),
        import_params_out(*p, indent as nat, old(buf)@) == outcome(r, final(buf)@),
    decreases p, 1int, 1int,
{
    fmt_spaces(buf, &p.before, indent);
    if p.params.items.len() == 0 && p.params.final_comments.len() == 0 {
        fmt_collection_empty(buf, indent, Braces::Curly);
    } else {
        buf.indent(indent);
        buf.push('{');
        fmt_efields(buf, &p.params.items, 0, deeper_indent(indent))?;
        fmt_collection_close(buf, indent, &p.params.final_comments, Braces::Curly);
    }
    Ok(())
}

/// Writes an import of a module, on a line of its own.
fn fmt_module_import(buf: &mut Buf, mi: &ModuleImport, indent: usize) -> (r: Result<(), MigrateError>)
    ensures
        grows(old(buf)@, final(buf)@),
        module_import_out(*mi, indent as nat, old(buf)@) == outcome(r, final(buf)@),
    decreases mi, 1int, 1int,
{
    fmt_import_head(buf, indent, mi);
    match &mi.params {
        Some(p) => {
            fmt_import_params(buf, indent, p)?;
        },
        None => {},
    }
    fmt_import_tail(buf, indent, &mi.alias, &mi.exposed);
    Ok(())
}

/// Writes an import of a file's contents under a name.
fn fmt_ingested_import(buf: &mut Buf, fi: &IngestedFileImport, indent: usize) -> (r: Result<(), MigrateError>)
    ensures
        grows(old(buf)@, final(buf)@),
        ingested_import_out(*fi, indent as nat, old(buf)@) == outcome(r, final(buf)@),
    decreases fi, 1int, 1int,
{
    let inner = deeper_indent(indent);
    push_tok(buf, indent, "import");
    buf.spaces();
    fmt_spaces(buf, &fi.before_path, inner);
    buf.indent(inner);
    push_quoted(buf, '"', &fi.path);
    buf.spaces();
    push_tok(buf, inner, "as");
    buf.spaces();
    push_tok_chars(buf, inner, &fi.name);
    match &fi.annotation {
        Some(a) => {
            fmt_spaces(buf, &a.before_colon, inner);
            push_tok(buf, inner, ":");
            buf.spaces();
            fmt_type(buf, inner, &a.annotation, Suffix::Empty)
        },
        None => Ok(()),
    }
}

/// Writes a pattern followed by `suffix`.
pub fn fmt_pattern(buf: &mut Buf, indent: usize, pat: &Pattern, suffix: Suffix) -> (r: Result<(), MigrateError>)
    ensures
        grows(old(buf)@, final(buf)@),
        pattern_out(*pat, indent as nat, suffix, old(buf)@) == outcome(r, final(buf)@),
    decreases pat, 1int, 1int,
{
    match pat {
        Pattern::SpaceBefore(inner, cs) => {
            fmt_spaces(buf, cs, indent);
            fmt_pattern(buf, indent, inner, suffix)
        },
        Pattern::SpaceAfter(inner, cs) => {
            fmt_pattern(buf, indent, inner, suffix)?;
            fmt_spaces(buf, cs, indent);
            Ok(())
        },
        _ => {
            fmt_pattern_body(buf, indent, pat)?;
            fmt_suffix(buf, indent, suffix);
            Ok(())
        },
    }
}

fn fmt_pattern_body(buf: &mut Buf, indent: usize, pat: &Pattern) -> (r: Result<(), MigrateError>)
    ensures
        grows(old(buf)@, final(buf)@),
        pattern_body_out(*pat, indent as nat, old(buf)@) == outcome(r, final(buf)@),
    decreases pat, 1int, 0int,
{
    match pat {
        Pattern::Identifier(s) => {
            buf.indent(indent);
            buf.push_ident(s);
        },
        Pattern::QualifiedIdentifier { module_name, ident } => {
            push_tok_chars(buf, indent, module_name);
            buf.push('.');
            buf.push_ident(ident);
        },
        Pattern::Tag(s) | Pattern::OpaqueRef(s) | Pattern::NumLiteral(s) | Pattern::FloatLiteral(s) => {
            push_tok_chars(buf, indent, s);
        },
        Pattern::Apply(f, c) => {
            fmt_pattern(buf, indent, f, Suffix::OpenRound)?;
            fmt_patterns(buf, &c.items, 0, indent, false)?;
            fmt_spaces(buf, &c.final_comments, indent);
            push_tok(buf, indent, ")");
        },
        Pattern::RecordDestructure(c) => {
            fmt_pattern_collection(buf, indent, &c.items, &c.final_comments, Braces::Curly)?;
        },
        Pattern::Tuple(c) => {
            fmt_pattern_collection(buf, indent, &c.items, &c.final_comments, Braces::Round)?;
        },
        Pattern::List(c) => {
            fmt_pattern_collection(buf, indent, &c.items, &c.final_comments, Braces::Square)?;
        },
        Pattern::RequiredField(name, inner) => {
            push_tok_chars(buf, indent, name);
            buf.push(':');
            buf.spaces();
            fmt_pattern(buf, indent, inner, Suffix::Empty)?;
        },
        Pattern::OptionalField(name, default) => {
            push_tok_chars(buf, indent, name);
            buf.push('?');
            buf.spaces();
            fmt_expr(buf, indent, default, Suffix::Question)?;
        },
        Pattern::NonBase10Literal { string, base, is_negative } => {
            buf.indent(indent);
            push_non_base10(buf, string, *base, *is_negative);
        },
        Pattern::StrLiteral(s) => {
            buf.indent(indent);
            push_quoted(buf, '"', s);
        },
        Pattern::Underscore(s) => {
            push_tok(buf, indent, "_");
            buf.push_chars(s);
        },
        Pattern::SingleQuote(s) => {
            buf.indent(indent);
            push_quoted(buf, '\'', s);
        },
        Pattern::ListRest(rest) => {
            push_tok(buf, indent, "..");
            match rest {
                Some(name) => {
                    buf.indent(indent);
                    buf.ensure_ends_with_whitespace();
                    buf.push_str("as");
                    buf.ensure_ends_with_whitespace();
                    push_tok_chars(buf, indent, name);
                },
                None => {},
            }
        },
        Pattern::As(inner, name) => {
            fmt_pattern(buf, indent, inner, Suffix::Empty)?;
            push_tok(buf, indent, " as");
            buf.ensure_ends_with_whitespace();
            push_tok_chars(buf, indent, name);
        },
        Pattern::Malformed(_) => {
            return Err(MigrateError::MalformedPatternNotSupported);
        },
        Pattern::MalformedIdent(_) => {
            return Err(MigrateError::MalformedPatternIdentNotSupported);
        },
        Pattern::MalformedExpr(_) => {
            return Err(MigrateError::MalformedPatternAsExprNotSupported);
        },
        Pattern::SpaceBefore(..) | Pattern::SpaceAfter(..) => {},
    }
    Ok(())
}

/// Writes a type followed by `suffix`.
pub fn fmt_type(buf: &mut Buf, indent: usize, t: &TypeAnnotation, suffix: Suffix) -> (r: Result<(), MigrateError>)
    ensures
        grows(old(buf)@, final(buf)@),
        type_out(*t, indent as nat, suffix, old(buf)@) == outcome(r, final(buf)@),
    decreases t, 1int, 1int,
{
    match t {
        TypeAnnotation::SpaceBefore(inner, cs) => {
            fmt_spaces(buf, cs, indent);
            fmt_type(buf, indent, inner, suffix)
        },
        TypeAnnotation::SpaceAfter(inner, cs) => {
            fmt_type(buf, indent, inner, suffix)?;
            fmt_spaces(buf, cs, indent);
            Ok(())
        },
        _ => {
            fmt_type_body(buf, indent, t)?;
            fmt_suffix(buf, indent, suffix);
            Ok(())
        },
    }
}

fn fmt_type_body(buf: &mut Buf, indent: usize, t: &TypeAnnotation) -> (r: Result<(), MigrateError>)
    ensures
        grows(old(buf)@, final(buf)@),
        type_body_out(*t, indent as nat, old(buf)@) == outcome(r, final(buf)@),
    decreases t, 1int, 0int,
{
    match t {
        TypeAnnotation::Function(args, arrow, res) => {
            fmt_types(buf, args, 0, indent, false)?;
            match arrow {
                FunctionArrow::Pure => buf.push_str(" ->"),
                FunctionArrow::Effectful => buf.push_str(" =>"),
            }
            buf.spaces();
            fmt_type(buf, indent, res, Suffix::Empty)?;
        },
        TypeAnnotation::Apply(module_name, name, args) => {
            buf.indent(indent);
            push_qualifier(buf, module_name);
            buf.push_chars(name);
            if args.len() > 0 {
                buf.push('(');
                fmt_types(buf, args, 0, indent, false)?;
                push_tok(buf, indent, ")");
            }
        },
        TypeAnnotation::BoundVariable(s) => push_tok_chars(buf, indent, s),
        TypeAnnotation::As(lhs, cs, header) => {
            fmt_type(buf, indent, lhs, Suffix::Empty)?;
            fmt_spaces(buf, cs, indent);
            push_tok(buf, indent, "as");
            buf.spaces();
            fmt_type_header(buf, header, indent);
        },
        TypeAnnotation::Record { .. } | TypeAnnotation::Tuple { .. } | TypeAnnotation::TagUnion { .. } => {
            fmt_type_collection(buf, indent, t)?;
        },
        TypeAnnotation::Inferred => push_tok(buf, indent, "_"),
        TypeAnnotation::Wildcard => {
            return Err(MigrateError::WildcardTypeNotSupported);
        },
        TypeAnnotation::Where(left, clauses) => {
            fmt_type(buf, indent, left, Suffix::Empty)?;
            fmt_clauses(buf, clauses, 0, indent)?;
        },
        TypeAnnotation::SpaceBefore(..) | TypeAnnotation::SpaceAfter(..) => {},
    }
    Ok(())
}

fn fmt_clauses(buf: &mut Buf, s: &Vec<ImplementsClause>, k: usize, indent: usize) -> (r: Result<(), MigrateError>)
    requires
        k <= s@.len(),
    ensures
        grows(old(buf)@, final(buf)@),
        clauses_out(s@, k as nat, indent as nat, old(buf)@) == outcome(r, final(buf)@),
    decreases s@, 1int, s@.len() - k,
{
    if k < s.len() {
        push_tok(buf, indent, " where");
        buf.spaces();
        fmt_clause(buf, &s[k], indent)?;
        fmt_clauses(buf, s, k + 1, indent)
    } else {
        Ok(())
    }
}

fn fmt_clause(buf: &mut Buf, c: &ImplementsClause, indent: usize) -> (r: Result<(), MigrateError>)
    ensures
        grows(old(buf)@, final(buf)@),
        clause_out(*c, indent as nat, old(buf)@) == outcome(r, final(buf)@),
    decreases c, 1int, 1int,
{
    push_tok_chars(buf, indent, &c.var);
    push_tok(buf, indent, " implements");
    buf.spaces();
    fmt_abilities(buf, &c.abilities, 0, indent)
}

fn fmt_abilities(buf: &mut Buf, s: &Vec<TypeAnnotation>, k: usize, indent: usize) -> (r: Result<(), MigrateError>)
    requires
        k <= s@.len(),
    ensures
        grows(old(buf)@, final(buf)@),
        abilities_out(s@, k as nat, indent as nat, old(buf)@) == outcome(r, final(buf)@),
    decreases s@, 1int, s@.len() - k,
{
    if k < s.len() {
        if k > 0 {
            buf.indent(indent);
            buf.spaces();
            buf.push('&');
            buf.spaces();
        }
        fmt_type(buf, indent, &s[k], Suffix::Empty)?;
        fmt_abilities(buf, s, k + 1, indent)
    } else {
        Ok(())
    }
}

fn fmt_field_label(buf: &mut Buf, indent: usize, ignored: bool, name: &Vec<char>, cs: &Vec<CommentOrNewline>)
    ensures
        grows(old(buf)@, final(buf)@),
        final(buf)@ == field_label(old(buf)@, indent as nat, if ignored { seq!['_'] + name@ } else { name@ }, cs@),
{
    buf.indent(indent);
    if ignored {
        let ghost m0 = buf@;
        buf.push('_');
        buf.push_chars(name);
        assert(buf@.text =~= m0.text + crate::buf::pending_seq(m0) + (seq!['_'] + name@));
    } else {
        buf.push_chars(name);
    }
    fmt_spaces(buf, cs, indent);
    push_tok(buf, indent, ":");
    buf.spaces();
}

fn fmt_efield(buf: &mut Buf, indent: usize, f: &AssignedField<Expr>, suffix: Suffix) -> (r: Result<(), MigrateError>)
    ensures
        grows(old(buf)@, final(buf)@),
        efield_out(*f, indent as nat, suffix, old(buf)@) == outcome(r, final(buf)@),
    decreases f, 1int, 1int,
{
    match f {
        AssignedField::RequiredValue(name, cs, v) | AssignedField::OptionalValue(name, cs, v) => {
            fmt_field_label(buf, indent, false, name, cs);
            fmt_expr(buf, indent, v, suffix)
        },
        AssignedField::IgnoredValue(name, cs, v) => {
            fmt_field_label(buf, indent, true, name, cs);
            fmt_expr(buf, indent, v, suffix)
        },
        AssignedField::LabelOnly(name) => {
            push_tok_chars(buf, indent, name);
            fmt_suffix(buf, indent, suffix);
            Ok(())
        },
        AssignedField::SpaceBefore(inner, cs) => {
            fmt_spaces(buf, cs, indent);
            fmt_efield(buf, indent, inner, suffix)
        },
        AssignedField::SpaceAfter(inner, cs) => {
            fmt_efield(buf, indent, inner, suffix)?;
            fmt_spaces(buf, cs, indent);
            Ok(())
        },
    }
}

fn fmt_tfield(buf: &mut Buf, indent: usize, f: &AssignedField<TypeAnnotation>, suffix: Suffix) -> (r: Result<(), MigrateError>)
    ensures
        grows(old(buf)@, final(buf)@),
        tfield_out(*f, indent as nat, suffix, old(buf)@) == outcome(r, final(buf)@),
    decreases f, 1int, 1int,
{
    match f {
        AssignedField::RequiredValue(name, cs, v) | AssignedField::OptionalValue(name, cs, v) => {
            fmt_field_label(buf, indent, false, name, cs);
            fmt_type(buf, indent, v, suffix)
        },
        AssignedField::IgnoredValue(name, cs, v) => {
            fmt_field_label(buf, indent, true, name, cs);
            fmt_type(buf, indent, v, suffix)
        },
        AssignedField::LabelOnly(name) => {
            push_tok_chars(buf, indent, name);
            fmt_suffix(buf, indent, suffix);
            Ok(())
        },
        AssignedField::SpaceBefore(inner, cs) => {
            fmt_spaces(buf, cs, indent);
            fmt_tfield(buf, indent, inner, suffix)
        },
        AssignedField::SpaceAfter(inner, cs) => {
            fmt_tfield(buf, indent, inner, suffix)?;
            fmt_spaces(buf, cs, indent);
            Ok(())
        },
    }
}

fn push_brace(buf: &mut Buf, b: Braces, open: bool)
    ensures
        grows(old(buf)@, final(buf)@),
        final(buf)@ == crate::buf::m_push(old(buf)@, if open { open_brace(b) } else { close_brace(b) }),
{
    match b {
        Braces::Round => buf.push(if open { '(' } else { ')' }),
        Braces::Square => buf.push(if open { '[' } else { ']' }),
        Braces::Curly => buf.push(if open { '{' } else { '}' }),
    }
}

fn fmt_collection_close(buf: &mut Buf, indent: usize, cs: &Vec<CommentOrNewline>, b: Braces)
    ensures
        grows(old(buf)@, final(buf)@),
        final(buf)@ == coll_close(old(buf)@, cs@, indent as nat, b),
{
    fmt_spaces(buf, cs, indent);
    buf.indent(indent);
    push_brace(buf, b, false);
}

fn fmt_collection_empty(buf: &mut Buf, indent: usize, b: Braces)
    ensures
        grows(old(buf)@, final(buf)@),
        final(buf)@ == coll_empty(old(buf)@, indent as nat, b),
{
    buf.indent(indent);
    push_brace(buf, b, true);
    push_brace(buf, b, false);
}

/// Writes a list, tuple or record value.
fn fmt_expr_collection(buf: &mut Buf, indent: usize, e: &Expr) -> (r: Result<(), MigrateError>)
    ensures
        grows(old(buf)@, final(buf)@),
        expr_coll_out(*e, indent as nat, old(buf)@) == outcome(r, final(buf)@),
    decreases e, 0int, 0int,
{
    let inner = deeper_indent(indent);
    match e {
        Expr::List(c) | Expr::Tuple(c) => {
            let b = if let Expr::Tuple(_) = e { Braces::Round } else { Braces::Square };
            if c.items.len() == 0 && c.final_comments.len() == 0 {
                fmt_collection_empty(buf, indent, b);
            } else {
                buf.indent(indent);
                push_brace(buf, b, true);
                fmt_exprs(buf, &c.items, 0, inner, false)?;
                fmt_collection_close(buf, indent, &c.final_comments, b);
            }
        },
        Expr::Record(c) => {
            if c.items.len() == 0 && c.final_comments.len() == 0 {
                fmt_collection_empty(buf, indent, Braces::Curly);
            } else {
                buf.indent(indent);
                buf.push('{');
                fmt_efields(buf, &c.items, 0, inner)?;
                fmt_collection_close(buf, indent, &c.final_comments, Braces::Curly);
            }
        },
        Expr::RecordUpdate { update, fields } => {
            buf.indent(indent);
            buf.push('{');
            fmt_expr(buf, indent, update, Suffix::Empty)?;
            push_tok(buf, indent, "&");
            fmt_efields(buf, &fields.items, 0, inner)?;
            fmt_collection_close(buf, indent, &fields.final_comments, Braces::Curly);
        },
        Expr::RecordBuilder { mapper, fields } => {
            buf.indent(indent);
            buf.push('{');
            fmt_expr(buf, indent, mapper, Suffix::Empty)?;
            push_tok(buf, indent, "<-");
            fmt_efields(buf, &fields.items, 0, inner)?;
            fmt_collection_close(buf, indent, &fields.final_comments, Braces::Curly);
        },
        _ => {},
    }
    Ok(())
}

fn fmt_pattern_collection(buf: &mut Buf, indent: usize, s: &Vec<Pattern>, cs: &Vec<CommentOrNewline>, b: Braces) -> (r: Result<(), MigrateError>)
    ensures
        grows(old(buf)@, final(buf)@),
        patterns_coll(s@, cs@, b, indent as nat, old(buf)@) == outcome(r, final(buf)@),
    decreases s@, 1int, s@.len() + 1,
{
    if s.len() == 0 && cs.len() == 0 {
        fmt_collection_empty(buf, indent, b);
    } else {
        buf.indent(indent);
        push_brace(buf, b, true);
        fmt_patterns(buf, s, 0, deeper_indent(indent), false)?;
        fmt_collection_close(buf, indent, cs, b);
    }
    Ok(())
}

fn fmt_ext(buf: &mut Buf, indent: usize, ext: &Option<Box<TypeAnnotation>>) -> (r: Result<(), MigrateError>)
    ensures
        grows(old(buf)@, final(buf)@),
        ext_out(*ext, indent as nat, old(buf)@) == outcome(r, final(buf)@),
    decreases ext, 1int, 1int,
{
    match ext {
        Some(x) => {
            push_tok(buf, indent, "..");
            fmt_type(buf, indent, x, Suffix::Empty)
        },
        None => Ok(()),
    }
}

/// Writes a record, tuple or tag union type, with its open tail if any.
fn fmt_type_collection(buf: &mut Buf, indent: usize, t: &TypeAnnotation) -> (r: Result<(), MigrateError>)
    ensures
        grows(old(buf)@, final(buf)@),
        type_coll_out(*t, indent as nat, old(buf)@) == outcome(r, final(buf)@),
    decreases t, 0int, 0int,
{
    let inner = deeper_indent(indent);
    match t {
        TypeAnnotation::Record { fields, ext } => {
            if fields.items.len() == 0 && fields.final_comments.len() == 0 && ext.is_none() {
                fmt_collection_empty(buf, indent, Braces::Curly);
            } else {
                buf.indent(indent);
                buf.push('{');
                fmt_tfields(buf, &fields.items, 0, inner, ext.is_some())?;
                fmt_ext(buf, indent, ext)?;
                fmt_collection_close(buf, indent, &fields.final_comments, Braces::Curly);
            }
        },
        TypeAnnotation::Tuple { elems: c, ext } | TypeAnnotation::TagUnion { tags: c, ext } => {
            let b = if let TypeAnnotation::Tuple { .. } = t { Braces::Round } else { Braces::Square };
            if c.items.len() == 0 && c.final_comments.len() == 0 && ext.is_none() {
                fmt_collection_empty(buf, indent, b);
            } else {
                buf.indent(indent);
                push_brace(buf, b, true);
                fmt_types(buf, &c.items, 0, inner, ext.is_some())?;
                fmt_ext(buf, indent, ext)?;
                fmt_collection_close(buf, indent, &c.final_comments, b);
            }
        },
        _ => {},
    }
    Ok(())
}

fn push_op(buf: &mut Buf, op: BinOp)
    ensures
        grows(old(buf)@, final(buf)@),
        final(buf)@ == crate::buf::m_push_str(old(buf)@, op_text(op)),
{
    match op {
        BinOp::Caret => buf.push_str("^"),
        BinOp::Star => buf.push_str("*"),
        BinOp::Slash => buf.push_str("/"),
        BinOp::DoubleSlash => buf.push_str("//"),
        BinOp::Percent => buf.push_str("%"),
        BinOp::Plus => buf.push_str("+"),
        BinOp::Minus => buf.push_str("-"),
        BinOp::Pizza => buf.push_str("|>"),
        BinOp::Equals => buf.push_str("=="),
        BinOp::NotEquals => buf.push_str("!="),
        BinOp::LessThan => buf.push_str("<"),
        BinOp::GreaterThan => buf.push_str(">"),
        BinOp::LessThanOrEq => buf.push_str("<="),
        BinOp::GreaterThanOrEq => buf.push_str(">="),
        BinOp::And => buf.push_str("&&"),
        BinOp::Or => buf.push_str("||"),
    }
}

/// Writes the rewritten tree `converted` of the operator chain `chain`,
/// followed by `suffix`.
fn fmt_converted_ops(buf: &mut Buf, indent: usize, chain: &Expr, converted: &MigratedBinOp, suffix: Suffix) -> (r: Result<(), MigrateError>)
    ensures
        grows(old(buf)@, final(buf)@),
        conv_out(*chain, *converted, indent as nat, suffix, old(buf)@) == outcome(r, final(buf)@),
    decreases chain, 0int, crate::rewrite::tree_size(*converted),
{
    match chain {
        Expr::BinOps(pairs, last) => match converted {
            MigratedBinOp::BinOp { lhs, op, rhs } => {
                fmt_converted_ops(buf, indent, chain, lhs, Suffix::Empty)?;
                buf.indent(indent);
                buf.spaces();
                push_op(buf, *op);
                buf.spaces();
                fmt_converted_ops(buf, indent, chain, rhs, suffix)
            },
            MigratedBinOp::Expr(j) => fmt_expr(buf, indent, operand(pairs, last, *j), suffix),
            MigratedBinOp::Parens(inner) => {
                buf.push('(');
                fmt_converted_ops(buf, indent, chain, inner, Suffix::Empty)?;
                push_tok(buf, indent, ")");
                fmt_suffix(buf, indent, suffix);
                Ok(())
            },
            MigratedBinOp::StaticDispatch { lhs, rhs } => {
                fmt_converted_ops(buf, indent, chain, lhs, Suffix::Empty)?;
                fmt_dispatch(buf, indent, operand(pairs, last, *rhs), true, suffix)
            },
            MigratedBinOp::FuncStaticDispatch { lhs, rhs } => {
                fmt_converted_ops(buf, indent, chain, lhs, Suffix::Empty)?;
                fmt_dispatch(buf, indent, operand(pairs, last, *rhs), false, suffix)
            },
        },
        _ => Ok(()),
    }
}

fn fmt_dispatch(buf: &mut Buf, indent: usize, target: &Expr, is_static: bool, suffix: Suffix) -> (r: Result<(), MigrateError>)
    ensures
        grows(old(buf)@, final(buf)@),
        dispatch_out(*target, is_static, indent as nat, suffix, old(buf)@) == outcome(r, final(buf)@),
    decreases target, 1int, 3int,
{
    match target {
        Expr::SpaceBefore(inner, before) => match &**inner {
            Expr::SpaceAfter(item, after) => fmt_dispatch_parts(buf, indent, item, Some(before), Some(after), is_static, suffix),
            _ => fmt_dispatch_parts(buf, indent, inner, Some(before), None, is_static, suffix),
        },
        Expr::SpaceAfter(inner, after) => match &**inner {
            Expr::SpaceBefore(item, before) => fmt_dispatch_parts(buf, indent, item, Some(before), Some(after), is_static, suffix),
            _ => fmt_dispatch_parts(buf, indent, inner, None, Some(after), is_static, suffix),
        },
        _ => fmt_dispatch_parts(buf, indent, target, None, None, is_static, suffix),
    }
}

fn push_method_ident(buf: &mut Buf, item: &Expr)
    ensures
        grows(old(buf)@, final(buf)@),
        final(buf)@ == crate::buf::m_ident(old(buf)@, method_ident(*item)),
{
    let f = match item {
        Expr::Apply(f, _) | Expr::PncApply(f, _) => &**f,
        _ => item,
    };
    match f {
        Expr::Var { ident, .. } => buf.push_ident(ident),
        _ => {
            let empty: Vec<char> = Vec::new();
            buf.push_ident(&empty);
        },
    }
}

/// Writes `.f(args)` for a builtin operation, or `.(f)(args)` for a function
/// value, between the comments that wrapped the call.
#[verifier::rlimit(60)]
fn fmt_dispatch_parts(
    buf: &mut Buf,
    indent: usize,
    item: &Expr,
    before: Option<&Vec<CommentOrNewline>>,
    after: Option<&Vec<CommentOrNewline>>,
    is_static: bool,
    suffix: Suffix,
) -> (r: Result<(), MigrateError>)
    ensures
        grows(old(buf)@, final(buf)@),
        dispatch_parts_out(*item, opt_comments(before), opt_comments(after), is_static, indent as nat, suffix, old(buf)@) == outcome(r, final(buf)@),
    decreases item, 1int, 2int,
{
    fmt_spaces_opt(buf, before, indent);
    push_tok(buf, indent, ".");
    if is_static {
        push_method_ident(buf, item);
        buf.push('(');
    } else {
        buf.push('(');
        match item {
            Expr::Apply(f, _) | Expr::PncApply(f, _) => {
                fmt_expr(buf, indent, f, Suffix::Empty)?;
            },
            _ => {
                fmt_expr_body(buf, indent, item)?;
            },
        }
        buf.push(')');
        buf.push('(');
    }
    match item {
        Expr::Apply(_, args) => {
            fmt_exprs(buf, args, 0, indent, false)?;
        },
        Expr::PncApply(_, c) => {
            fmt_exprs(buf, &c.items, 0, indent, false)?;
            fmt_spaces(buf, &c.final_comments, indent);
        },
        _ => {},
    }
    push_tok(buf, indent, ")");
    fmt_suffix(buf, indent, suffix);
    fmt_spaces_opt(buf, after, indent);
    Ok(())
}

/// Writes a top-level expression: its definitions at the left margin, then
/// the expression they scope over.
pub fn fmt_expr_top_level(buf: &mut Buf, indent: usize, expr: &Expr) -> (r: Result<(), MigrateError>)
    ensures
        grows(old(buf)@, final(buf)@),
        top_level_out(*expr, indent as nat, old(buf)@) == outcome(r, final(buf)@),
{
    let (before, item, after) = extract_spaces(expr);
    fmt_spaces_opt(buf, before, indent);
    match item {
        Expr::Defs(defs, fin) => {
            fmt_defs(buf, defs)?;
            fmt_expr(buf, indent, fin, Suffix::Empty)?;
        },
        _ => {
            fmt_expr(buf, indent, item, Suffix::Empty)?;
        },
    }
    fmt_spaces_opt(buf, after, indent);
    Ok(())
}

/// Writes definitions at the left margin, each between its own comments.
/// When one fails, the text of those before it stays in the buffer.
pub fn fmt_defs(buf: &mut Buf, defs: &Defs) -> (r: Result<(), MigrateError>)
    ensures
        grows(old(buf)@, final(buf)@),
        entries_out(defs.entries@, 0, 0, old(buf)@) == outcome(r, final(buf)@),
        r is Err ==> exists|j: nat| #![trigger entries_between(defs.entries@, 0, j, 0, old(buf)@)]
            j < defs.entries@.len()
            && (entries_between(defs.entries@, 0, j, 0, old(buf)@) matches Ok(mj) && grows(mj, final(buf)@)),
{
    fmt_entries(buf, &defs.entries, 0, 0)
}

/// Writes a module header at the left margin.
pub fn fmt_header(buf: &mut Buf, header: &ModuleHeader) -> (r: Result<(), MigrateError>)
    ensures
        grows(old(buf)@, final(buf)@),
        module_header_out(*header, old(buf)@) == outcome(r, final(buf)@),
{
    fmt_spaces(buf, &header.before, 0);
    push_tok(buf, 0, "module");
    buf.spaces();
    fmt_spaces(buf, &header.after_keyword, 0);
    match &header.params {
        Some(p) => {
            fmt_pattern_collection(buf, 0, &p.pattern.items, &p.pattern.final_comments, Braces::Curly)?;
            fmt_spaces(buf, &p.before_arrow, 0);
            buf.spaces();
            buf.push_str("->");
            buf.spaces();
            fmt_spaces(buf, &p.after_arrow, 0);
        },
        None => {},
    }
    fmt_names_collection(buf, 0, &header.exposes, Braces::Square);
    Ok(())
}

} // verus!
