use vstd::prelude::*;

use crate::ast::{BinOp, CommentOrNewline, Expr};
use crate::casing::{snake_case, snakify_camel_ident};
use crate::dispatch::{is_static_method, is_static_method_spec};

verus! {

/// A failure to render a construct that the target syntax has no form for.
#[derive(Clone, Copy, Debug, PartialEq, Eq, Structural)]
pub enum MigrateError {
    AbilitiesNotSupported,
    WildcardTypeNotSupported,
    MalformedIdentNotSupported,
    MalformedPatternNotSupported,
    MalformedPatternIdentNotSupported,
    MalformedPatternAsExprNotSupported,
    PrecedenceConflictNotSupported,
    OpaqueNotSupported,
    PizzaOpRhsNotSupported,
}

pub open spec fn precedence_spec(op: BinOp) -> u8 {
    match op {
        BinOp::Caret => 8,
        BinOp::Star | BinOp::Slash | BinOp::DoubleSlash | BinOp::Percent => 7,
        BinOp::Plus | BinOp::Minus => 6,
        BinOp::Equals | BinOp::NotEquals | BinOp::LessThan | BinOp::GreaterThan
        | BinOp::LessThanOrEq | BinOp::GreaterThanOrEq => 5,
        BinOp::And => 4,
        BinOp::Or => 3,
        BinOp::Pizza => 2,
    }
}

pub open spec fn is_right_assoc_spec(op: BinOp) -> bool {
    match op {
        BinOp::Caret | BinOp::And | BinOp::Or => true,
        _ => false,
    }
}

impl BinOp {
    pub fn precedence(self) -> (r: u8)
        ensures
            r == precedence_spec(self),
    {
        match self {
            BinOp::Caret => 8,
            BinOp::Star | BinOp::Slash | BinOp::DoubleSlash | BinOp::Percent => 7,
            BinOp::Plus | BinOp::Minus => 6,
            BinOp::Equals | BinOp::NotEquals | BinOp::LessThan | BinOp::GreaterThan
            | BinOp::LessThanOrEq | BinOp::GreaterThanOrEq => 5,
            BinOp::And => 4,
            BinOp::Or => 3,
            BinOp::Pizza => 2,
        }
    }

    pub fn is_right_assoc(self) -> (r: bool)
        ensures
            r == is_right_assoc_spec(self),
    {
        match self {
            BinOp::Caret | BinOp::And | BinOp::Or => true,
            _ => false,
        }
    }
}

/// An operator chain with its grouping resolved. Leaves and dispatch calls
/// name an operand of the chain by its position.
#[derive(Debug)]
pub enum MigratedBinOp {
    BinOp { lhs: Box<MigratedBinOp>, op: BinOp, rhs: Box<MigratedBinOp> },
    Parens(Box<MigratedBinOp>),
    /// `lhs.f(args)`, where operand `rhs` is the call of `f` (or the bare
    /// name `f`) that the pipe fed, and `f` names a builtin operation.
    StaticDispatch { lhs: Box<MigratedBinOp>, rhs: usize },
    /// `lhs.(f)(args)`, where operand `rhs` is the call (or bare function
    /// value `f`) that the pipe fed.
    FuncStaticDispatch { lhs: Box<MigratedBinOp>, rhs: usize },
    Expr(usize),
}

pub open spec fn tree_size(t: MigratedBinOp) -> nat
    decreases t,
{
    match t {
        MigratedBinOp::BinOp { lhs, rhs, .. } => 1 + tree_size(*lhs) + tree_size(*rhs),
        MigratedBinOp::Parens(inner) => 1 + tree_size(*inner),
        MigratedBinOp::StaticDispatch { lhs, .. } => 1 + tree_size(*lhs),
        MigratedBinOp::FuncStaticDispatch { lhs, .. } => 1 + tree_size(*lhs),
        MigratedBinOp::Expr(_) => 1,
    }
}

/// Operand `j` of the chain `pairs`, `last`.
pub open spec fn operand_of(pairs: Seq<(Expr, BinOp)>, last: Expr, j: int) -> Expr {
    if 0 <= j < pairs.len() { pairs[j].0 } else { last }
}

/// A node with its comment wrappers taken off: one wrapper before and one
/// after at most.
pub struct Stripped {
    pub before: Seq<CommentOrNewline>,
    pub item: Expr,
    pub after: Seq<CommentOrNewline>,
}

pub open spec fn strip_spaces(e: Expr) -> Stripped {
    match e {
        Expr::SpaceBefore(inner, before) => match *inner {
            Expr::SpaceAfter(item, after) => Stripped { before: before@, item: *item, after: after@ },
            _ => Stripped { before: before@, item: *inner, after: Seq::empty() },
        },
        Expr::SpaceAfter(inner, after) => match *inner {
            Expr::SpaceBefore(item, before) => Stripped { before: before@, item: *item, after: after@ },
            _ => Stripped { before: Seq::empty(), item: *inner, after: after@ },
        },
        _ => Stripped { before: Seq::empty(), item: e, after: Seq::empty() },
    }
}

/// The name as it is written, in snake case when asked for.
pub open spec fn cased(snakify: bool, s: Seq<char>) -> Seq<char> {
    if snakify { snake_case(s) } else { s }
}

/// The receiver of a dispatch: a plain operator node gets parentheses.
pub open spec fn maybe_parens_spec(lhs: MigratedBinOp) -> MigratedBinOp {
    match lhs {
        MigratedBinOp::BinOp { .. } => MigratedBinOp::Parens(Box::new(lhs)),
        _ => lhs,
    }
}

/// The dispatch call that a pipe from `lhs` into operand `j` (a name `f`, or
/// a call of `f`) becomes: a method call when `f` is a recognized builtin
/// operation, otherwise a call of the function value.
pub open spec fn dispatch_of(lhs: MigratedBinOp, j: usize, module_name: Seq<char>, ident: Seq<char>, snakify: bool) -> MigratedBinOp {
    if is_static_method_spec(module_name, cased(snakify, ident)) {
        MigratedBinOp::StaticDispatch { lhs: Box::new(maybe_parens_spec(lhs)), rhs: j }
    } else {
        MigratedBinOp::FuncStaticDispatch { lhs: Box::new(maybe_parens_spec(lhs)), rhs: j }
    }
}

pub open spec fn is_call(e: Expr) -> bool {
    e is Apply || e is PncApply
}

pub open spec fn callee(e: Expr) -> Expr {
    match e {
        Expr::Apply(f, _) => *f,
        Expr::PncApply(f, _) => *f,
        _ => e,
    }
}

/// What a pipe from `lhs` into `rhs` becomes.
pub open spec fn resolve_pipe(pairs: Seq<(Expr, BinOp)>, last: Expr, lhs: MigratedBinOp, rhs: MigratedBinOp, snakify: bool) -> Result<MigratedBinOp, MigrateError> {
    match rhs {
        MigratedBinOp::Expr(j) => {
            let item = strip_spaces(operand_of(pairs, last, j as int)).item;
            if is_call(item) {
                match callee(item) {
                    Expr::Var { module_name, ident } => Ok(dispatch_of(lhs, j, module_name@, ident@, snakify)),
                    _ => Ok(MigratedBinOp::FuncStaticDispatch { lhs: Box::new(maybe_parens_spec(lhs)), rhs: j }),
                }
            } else {
                match item {
                    Expr::Var { module_name, ident } => Ok(dispatch_of(lhs, j, module_name@, ident@, snakify)),
                    _ => Err(MigrateError::PizzaOpRhsNotSupported),
                }
            }
        },
        _ => Err(MigrateError::PizzaOpRhsNotSupported),
    }
}

/// The node that reducing `op` over `lhs` and `rhs` gives.
pub open spec fn combine(pairs: Seq<(Expr, BinOp)>, last: Expr, lhs: MigratedBinOp, op: BinOp, rhs: MigratedBinOp, snakify: bool) -> Result<MigratedBinOp, MigrateError> {
    if op == BinOp::Pizza {
        resolve_pipe(pairs, last, lhs, rhs, snakify)
    } else {
        Ok(MigratedBinOp::BinOp { lhs: Box::new(lhs), op, rhs: Box::new(rhs) })
    }
}

/// Whether an operator on top of the stack stays there when an operator of
/// precedence `min` arrives.
pub open spec fn stays(op: BinOp, min: u8) -> bool {
    precedence_spec(op) <= min && (is_right_assoc_spec(op) || precedence_spec(op) < min)
}

/// Reduces the stacks while the operator on top binds at least as tightly as
/// an incoming operator of precedence `min`.
pub open spec fn reduce(pairs: Seq<(Expr, BinOp)>, last: Expr, snakify: bool, stack: Seq<MigratedBinOp>, ops: Seq<BinOp>, min: u8) -> Result<(Seq<MigratedBinOp>, Seq<BinOp>), MigrateError>
    decreases ops.len(),
{
    if ops.len() == 0 || stack.len() < 2 || stays(ops.last(), min) {
        Ok((stack, ops))
    } else {
        let n = stack.len();
        match combine(pairs, last, stack[n - 2], ops.last(), stack[n - 1], snakify) {
            Err(e) => Err(e),
            Ok(t) => reduce(pairs, last, snakify, stack.subrange(0, n - 2).push(t), ops.drop_last(), min),
        }
    }
}

/// Precedence climbing from pair `i` on, with the stacks built so far.
pub open spec fn climb(pairs: Seq<(Expr, BinOp)>, last: Expr, snakify: bool, i: nat, stack: Seq<MigratedBinOp>, ops: Seq<BinOp>) -> Result<MigratedBinOp, MigrateError>
    decreases pairs.len() - i,
{
    if i < pairs.len() {
        let op = pairs[i as int].1;
        match reduce(pairs, last, snakify, stack.push(MigratedBinOp::Expr(i as usize)), ops, precedence_spec(op)) {
            Err(e) => Err(e),
            Ok((s, o)) => climb(pairs, last, snakify, i + 1, s, o.push(op)),
        }
    } else {
        match reduce(pairs, last, snakify, stack.push(MigratedBinOp::Expr(pairs.len() as usize)), ops, 0) {
            Err(e) => Err(e),
            Ok((s, o)) => if s.len() > 0 { Ok(s.last()) } else { Err(MigrateError::PizzaOpRhsNotSupported) },
        }
    }
}

/// The operator chain `pairs`, `last` with its grouping resolved and its pipes
/// turned into dispatch calls.
pub open spec fn migrate_spec(pairs: Seq<(Expr, BinOp)>, last: Expr, snakify: bool) -> Result<MigratedBinOp, MigrateError> {
    climb(pairs, last, snakify, 0, Seq::empty(), Seq::empty())
}

pub fn operand<'a>(pairs: &'a Vec<(Expr, BinOp)>, last: &'a Expr, j: usize) -> (r: &'a Expr)
    ensures
        *r == operand_of(pairs@, *last, j as int),
{
    if j < pairs.len() {
        &pairs[j].0
    } else {
        last
    }
}

/// Takes off the comment wrappers of `e`, as `strip_spaces` says.
pub fn extract_spaces(e: &Expr) -> (r: (Option<&Vec<CommentOrNewline>>, &Expr, Option<&Vec<CommentOrNewline>>))
    ensures
        *r.1 == strip_spaces(*e).item,
        match r.0 { Some(b) => b@ == strip_spaces(*e).before, None => strip_spaces(*e).before.len() == 0 },
        match r.2 { Some(a) => a@ == strip_spaces(*e).after, None => strip_spaces(*e).after.len() == 0 },
{
    match e {
        Expr::SpaceBefore(inner, before) => match &**inner {
            Expr::SpaceAfter(item, after) => (Some(before), &**item, Some(after)),
            _ => (Some(before), &**inner, None),
        },
        Expr::SpaceAfter(inner, after) => match &**inner {
            Expr::SpaceBefore(item, before) => (Some(before), &**item, Some(after)),
            _ => (None, &**inner, Some(after)),
        },
        _ => (None, e, None),
    }
}

fn maybe_parens(lhs: MigratedBinOp) -> (r: MigratedBinOp)
    ensures
        r == maybe_parens_spec(lhs),
{
    match lhs {
        MigratedBinOp::BinOp { .. } => MigratedBinOp::Parens(Box::new(lhs)),
        _ => lhs,
    }
}

fn dispatch(lhs: MigratedBinOp, j: usize, module_name: &Vec<char>, ident: &Vec<char>, snakify: bool) -> (r: MigratedBinOp)
    ensures
        r == dispatch_of(lhs, j, module_name@, ident@, snakify),
{
    let name = if snakify { snakify_camel_ident(ident) } else { copy_chars(ident) };
    if is_static_method(module_name, &name) {
        MigratedBinOp::StaticDispatch { lhs: Box::new(maybe_parens(lhs)), rhs: j }
    } else {
        MigratedBinOp::FuncStaticDispatch { lhs: Box::new(maybe_parens(lhs)), rhs: j }
    }
}

pub fn copy_chars(s: &Vec<char>) -> (r: Vec<char>)
    ensures
        r@ == s@,
{
    let mut out: Vec<char> = Vec::new();
    let mut i: usize = 0;
    while i < s.len()
        invariant
            i <= s@.len(),
            out@ == s@.subrange(0, i as int),
        decreases s@.len() - i,
    {
        out.push(s[i]);
        proof {
            assert(s@.subrange(0, i as int + 1) =~= s@.subrange(0, i as int).push(s@[i as int]));
        }
        i = i + 1;
    }
    assert(s@.subrange(0, i as int) =~= s@);
    out
}

fn resolve_pizza(pairs: &Vec<(Expr, BinOp)>, last: &Expr, lhs: MigratedBinOp, rhs: MigratedBinOp, snakify: bool) -> (r: Result<MigratedBinOp, MigrateError>)
    ensures
        r == resolve_pipe(pairs@, *last, lhs, rhs, snakify),
{
    match rhs {
        MigratedBinOp::Expr(j) => {
            let (_, item, _) = extract_spaces(operand(pairs, last, j));
            match item {
                Expr::Apply(f, _) | Expr::PncApply(f, _) => match &**f {
                    Expr::Var { module_name, ident } => Ok(dispatch(lhs, j, module_name, ident, snakify)),
                    _ => Ok(MigratedBinOp::FuncStaticDispatch { lhs: Box::new(maybe_parens(lhs)), rhs: j }),
                },
                Expr::Var { module_name, ident } => Ok(dispatch(lhs, j, module_name, ident, snakify)),
                _ => Err(MigrateError::PizzaOpRhsNotSupported),
            }
        },
        _ => Err(MigrateError::PizzaOpRhsNotSupported),
    }
}

fn apply_ops(pairs: &Vec<(Expr, BinOp)>, last: &Expr, snakify: bool, stack: &mut Vec<MigratedBinOp>, ops: &mut Vec<BinOp>, min_precedence: u8) -> (r: Result<(), MigrateError>)
    requires
        old(stack)@.len() >= old(ops)@.len() + 1,
    ensures
        match reduce(pairs@, *last, snakify, old(stack)@, old(ops)@, min_precedence) {
            Ok((s, o)) => r is Ok && final(stack)@ == s && final(ops)@ == o,
            Err(e) => r == Err::<(), MigrateError>(e),
        },
        r is Ok ==> final(stack)@.len() - final(ops)@.len() == old(stack)@.len() - old(ops)@.len(),
{
    while ops.len() > 0
        invariant
            stack@.len() >= ops@.len() + 1,
            stack@.len() - ops@.len() == old(stack)@.len() - old(ops)@.len(),
            reduce(pairs@, *last, snakify, old(stack)@, old(ops)@, min_precedence)
                == reduce(pairs@, *last, snakify, stack@, ops@, min_precedence),
        decreases ops@.len(),
    {
        let op = ops[ops.len() - 1];
        let p = op.precedence();
        if p <= min_precedence && (op.is_right_assoc() || p < min_precedence) {
            return Ok(());
        }
        let ghost s0 = stack@;
        let ghost o0 = ops@;
        ops.pop();
        let rhs = stack.pop().unwrap();
        let lhs = stack.pop().unwrap();
        let result = if op.is_pizza() {
            resolve_pizza(pairs, last, lhs, rhs, snakify)
        } else {
            Ok(MigratedBinOp::BinOp { lhs: Box::new(lhs), op, rhs: Box::new(rhs) })
        };
        match result {
            Err(e) => {
                return Err(e);
            },
            Ok(t) => {
                stack.push(t);
                proof {
                    assert(stack@ =~= s0.subrange(0, s0.len() - 2).push(t));
                    assert(ops@ =~= o0.drop_last());
                }
            },
        }
    }
    Ok(())
}

impl BinOp {
    pub fn is_pizza(self) -> (r: bool)
        ensures
            r == (self == BinOp::Pizza),
    {
        match self {
            BinOp::Pizza => true,
            _ => false,
        }
    }
}

/// Resolves the grouping of an operator chain by precedence climbing, turning
/// each pipe into a dispatch call.
pub fn migrate_pizza(pairs: &Vec<(Expr, BinOp)>, last: &Expr, snakify: bool) -> (r: Result<MigratedBinOp, MigrateError>)
    ensures
        r == migrate_spec(pairs@, *last, snakify),
{
    let mut stack: Vec<MigratedBinOp> = Vec::new();
    let mut ops: Vec<BinOp> = Vec::new();
    let mut i: usize = 0;
    while i < pairs.len()
        invariant
            i <= pairs@.len(),
            stack@.len() == ops@.len(),
            migrate_spec(pairs@, *last, snakify) == climb(pairs@, *last, snakify, i as nat, stack@, ops@),
        decreases pairs@.len() - i,
    {
        let op = pairs[i].1;
        stack.push(MigratedBinOp::Expr(i));
        apply_ops(pairs, last, snakify, &mut stack, &mut ops, op.precedence())?;
        ops.push(op);
        i = i + 1;
    }
    stack.push(MigratedBinOp::Expr(pairs.len()));
    apply_ops(pairs, last, snakify, &mut stack, &mut ops, 0)?;
    match stack.pop() {
        Some(t) => Ok(t),
        None => Err(MigrateError::PizzaOpRhsNotSupported),
    }
}

} // verus!
