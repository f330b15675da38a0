use vstd::prelude::*;

use crate::ast::{BinOp, Expr, Pattern, TypeAnnotation};
use crate::buf::{m_indent, m_push, m_push_str, m_space, pending_seq, BufModel};
use crate::casing::snake_case;
use crate::rules::{
    close_brace, coll_empty, expr_body_out, expr_coll_out, expr_out, open_brace, pattern_body_out,
    conv_out, exprs_out, op_text, pattern_coll_out, pattern_out, suffix_out, type_body_out, type_coll_out, type_out, Braces, Out,
    Suffix,
};
use crate::rewrite::{
    climb, combine, is_right_assoc_spec, maybe_parens_spec, migrate_spec, operand_of, precedence_spec,
    reduce, resolve_pipe, stays, MigratedBinOp,
};

verus! {

/// A tree of operator nodes over leaves only, with no pipe among them.
pub open spec fn is_plain(t: MigratedBinOp) -> bool
    decreases t,
{
    match t {
        MigratedBinOp::BinOp { lhs, op, rhs } => op != BinOp::Pizza && is_plain(*lhs) && is_plain(*rhs),
        MigratedBinOp::Expr(_) => true,
        _ => false,
    }
}

/// The operands that the leaves of `t` name, read left to right.
pub open spec fn leaves(t: MigratedBinOp) -> Seq<int>
    decreases t,
{
    match t {
        MigratedBinOp::BinOp { lhs, rhs, .. } => leaves(*lhs) + leaves(*rhs),
        MigratedBinOp::Parens(inner) => leaves(*inner),
        MigratedBinOp::StaticDispatch { lhs, rhs } => leaves(*lhs).push(rhs as int),
        MigratedBinOp::FuncStaticDispatch { lhs, rhs } => leaves(*lhs).push(rhs as int),
        MigratedBinOp::Expr(j) => seq![j as int],
    }
}

/// The operators of the operator nodes of `t`, read left to right.
pub open spec fn tree_ops(t: MigratedBinOp) -> Seq<BinOp>
    decreases t,
{
    match t {
        MigratedBinOp::BinOp { lhs, op, rhs } => tree_ops(*lhs).push(op) + tree_ops(*rhs),
        MigratedBinOp::Parens(inner) => tree_ops(*inner),
        MigratedBinOp::StaticDispatch { lhs, .. } => tree_ops(*lhs),
        MigratedBinOp::FuncStaticDispatch { lhs, .. } => tree_ops(*lhs),
        MigratedBinOp::Expr(_) => Seq::empty(),
    }
}

/// `t` may stand as the left operand of `o` without parentheses: it is no
/// operator node, or its operator binds tighter than `o`, or as tight and `o`
/// groups to the left.
pub open spec fn binds_left(t: MigratedBinOp, o: BinOp) -> bool {
    match t {
        MigratedBinOp::BinOp { op, .. } => precedence_spec(op) > precedence_spec(o)
            || (precedence_spec(op) == precedence_spec(o) && !is_right_assoc_spec(o)),
        _ => true,
    }
}

/// `t` may stand as the right operand of `o` without parentheses: it is no
/// operator node, or its operator binds tighter than `o`, or as tight and `o`
/// groups to the right.
pub open spec fn binds_right(o: BinOp, t: MigratedBinOp) -> bool {
    match t {
        MigratedBinOp::BinOp { op, .. } => precedence_spec(op) > precedence_spec(o)
            || (precedence_spec(op) == precedence_spec(o) && is_right_assoc_spec(o)),
        _ => true,
    }
}

/// Every operator node of `t` has operands that its precedence and
/// associativity would give it.
pub open spec fn well_grouped(t: MigratedBinOp) -> bool
    decreases t,
{
    match t {
        MigratedBinOp::BinOp { lhs, op, rhs } => binds_left(*lhs, op) && binds_right(op, *rhs)
            && well_grouped(*lhs) && well_grouped(*rhs),
        MigratedBinOp::Parens(inner) => well_grouped(*inner),
        MigratedBinOp::StaticDispatch { lhs, .. } => well_grouped(*lhs),
        MigratedBinOp::FuncStaticDispatch { lhs, .. } => well_grouped(*lhs),
        MigratedBinOp::Expr(_) => true,
    }
}

/// The stack state that precedence climbing keeps: well grouped trees, each
/// pending operator binding less tightly than the one above it, and each tree
/// fit to be an operand of the operators beside it.
pub open spec fn stack_grouped(s: Seq<MigratedBinOp>, o: Seq<BinOp>) -> bool {
    &&& forall|k: int| 0 <= k < s.len() ==> well_grouped(#[trigger] s[k])
    &&& forall|k: int| 0 <= k < o.len() - 1 ==> stays(#[trigger] o[k], precedence_spec(o[k + 1]))
    &&& forall|k: int| 1 <= k < s.len() ==> binds_right(o[k - 1], #[trigger] s[k])
    &&& forall|k: int| 0 <= k < s.len() - 1 ==> binds_left(#[trigger] s[k], o[k])
}

/// The top of the stack may be the left operand of an operator of precedence
/// `min` that reduced it.
pub open spec fn top_reduced(t: MigratedBinOp, min: u8) -> bool {
    match t {
        MigratedBinOp::BinOp { op, .. } => !stays(op, min),
        _ => true,
    }
}

proof fn lemma_same_precedence_same_assoc(a: BinOp, b: BinOp)
    requires
        precedence_spec(a) == precedence_spec(b),
    ensures
        is_right_assoc_spec(a) == is_right_assoc_spec(b),
{
}

/// The operators of a chain, in order.
pub open spec fn chain_ops(pairs: Seq<(Expr, BinOp)>) -> Seq<BinOp> {
    pairs.map_values(|p: (Expr, BinOp)| p.1)
}

pub open spec fn stack_leaves(s: Seq<MigratedBinOp>) -> Seq<int>
    decreases s.len(),
{
    if s.len() == 0 { Seq::empty() } else { stack_leaves(s.drop_last()) + leaves(s.last()) }
}

/// The operators of a stack state read left to right: those inside each tree,
/// with the pending operators between the trees.
pub open spec fn stack_ops(s: Seq<MigratedBinOp>, o: Seq<BinOp>) -> Seq<BinOp>
    decreases s.len(),
{
    if s.len() <= 1 {
        if s.len() == 0 { Seq::empty() } else { tree_ops(s[0]) }
    } else {
        stack_ops(s.drop_last(), o.drop_last()).push(o.last()) + tree_ops(s.last())
    }
}

proof fn lemma_reduce_plain(pairs: Seq<(Expr, BinOp)>, last: Expr, snakify: bool, s: Seq<MigratedBinOp>, o: Seq<BinOp>, min: u8)
    requires
        s.len() == o.len() + 1,
        forall|k: int| 0 <= k < s.len() ==> is_plain(#[trigger] s[k]),
        forall|k: int| 0 <= k < o.len() ==> #[trigger] o[k] != BinOp::Pizza,
        stack_grouped(s, o),
        top_reduced(s.last(), min),
    ensures
        reduce(pairs, last, snakify, s, o, min) matches Ok((s2, o2)) && s2.len() == o2.len() + 1
            && stack_grouped(s2, o2) && top_reduced(s2.last(), min)
            && (o2.len() > 0 ==> stays(o2.last(), min))
            && (forall|k: int| 0 <= k < s2.len() ==> is_plain(#[trigger] s2[k]))
            && (forall|k: int| 0 <= k < o2.len() ==> #[trigger] o2[k] != BinOp::Pizza)
            && stack_leaves(s2) == stack_leaves(s)
            && stack_ops(s2, o2) == stack_ops(s, o)
            && (min == 0 ==> o2.len() == 0),
    decreases o.len(),
{
    if o.len() == 0 || s.len() < 2 || stays(o.last(), min) {
        if min == 0 && o.len() > 0 {
            assert(precedence_spec(o.last()) > 0);
        }
    } else {
        let n = s.len();
        let t = MigratedBinOp::BinOp { lhs: Box::new(s[n - 2]), op: o.last(), rhs: Box::new(s[n - 1]) };
        let s1 = s.subrange(0, n - 2).push(t);
        let o1 = o.drop_last();
        assert(s1.drop_last() =~= s.drop_last().drop_last());
        assert(stack_leaves(s.drop_last()) == stack_leaves(s.drop_last().drop_last()) + leaves(s[n - 2]));
        assert(stack_leaves(s1) =~= stack_leaves(s));
        if n == 2 {
            assert(s1[0] == t);
            assert(s.drop_last().len() == 1 && s.drop_last()[0] == s[0]);
            assert(stack_ops(s.drop_last(), o.drop_last()) == tree_ops(s[0]));
            assert(stack_ops(s1, o1) =~= stack_ops(s, o));
        } else {
            assert(o1.drop_last() =~= o.drop_last().drop_last());
            assert(stack_ops(s.drop_last(), o.drop_last()) == stack_ops(s.drop_last().drop_last(), o.drop_last().drop_last()).push(o.drop_last().last()) + tree_ops(s[n - 2]));
            assert(stack_ops(s1, o1) =~= stack_ops(s, o));
        }
        assert forall|k: int| 0 <= k < s1.len() implies is_plain(#[trigger] s1[k]) by {
            if k < n - 2 {
                assert(s1[k] == s[k]);
            }
        }
        assert forall|k: int| 0 <= k < o1.len() implies #[trigger] o1[k] != BinOp::Pizza by {
            assert(o1[k] == o[k]);
        }
        assert(binds_left(s[n - 2], o.last()));
        assert(binds_right(o.last(), s[n - 1]));
        assert(well_grouped(s[n - 2]) && well_grouped(s[n - 1]));
        assert(well_grouped(t));
        assert forall|k: int| 0 <= k < s1.len() implies well_grouped(#[trigger] s1[k]) by {
            if k < n - 2 {
                assert(s1[k] == s[k]);
            }
        }
        assert forall|k: int| 0 <= k < o1.len() - 1 implies stays(#[trigger] o1[k], precedence_spec(o1[k + 1])) by {
            assert(o1[k] == o[k] && o1[k + 1] == o[k + 1]);
        }
        assert forall|k: int| 1 <= k < s1.len() implies binds_right(o1[k - 1], #[trigger] s1[k]) by {
            if k < n - 2 {
                assert(s1[k] == s[k]);
            } else {
                assert(stays(o[k - 1], precedence_spec(o[k])));
            }
        }
        assert forall|k: int| 0 <= k < s1.len() - 1 implies binds_left(#[trigger] s1[k], o1[k]) by {
            assert(s1[k] == s[k]);
        }
        assert(stack_grouped(s1, o1));
        assert(top_reduced(s1.last(), min));
        lemma_reduce_plain(pairs, last, snakify, s1, o1, min);
    }
}

proof fn lemma_push_operator(s2: Seq<MigratedBinOp>, o2: Seq<BinOp>, op: BinOp, j: usize)
    requires
        s2.len() == o2.len() + 1,
        stack_grouped(s2, o2),
        top_reduced(s2.last(), precedence_spec(op)),
        o2.len() > 0 ==> stays(o2.last(), precedence_spec(op)),
    ensures
        stack_grouped(s2.push(MigratedBinOp::Expr(j)), o2.push(op)),
{
    let o3 = o2.push(op);
    let s3 = s2.push(MigratedBinOp::Expr(j));
    let tp = s2.last();
    if tp is BinOp && precedence_spec(tp->BinOp_op) == precedence_spec(op) {
        lemma_same_precedence_same_assoc(tp->BinOp_op, op);
    }
    assert(binds_left(s2.last(), op));
    assert forall|k: int| 0 <= k < s3.len() implies well_grouped(#[trigger] s3[k]) by {
        if k < s2.len() {
            assert(s3[k] == s2[k]);
        }
    }
    assert forall|k: int| 0 <= k < o3.len() - 1 implies stays(#[trigger] o3[k], precedence_spec(o3[k + 1])) by {
        assert(o3[k] == o2[k]);
        if k + 1 < o2.len() {
            assert(o3[k + 1] == o2[k + 1]);
        }
    }
    assert forall|k: int| 1 <= k < s3.len() implies binds_right(o3[k - 1], #[trigger] s3[k]) by {
        if k < s2.len() {
            assert(s3[k] == s2[k]);
            assert(o3[k - 1] == o2[k - 1]);
        }
    }
    assert forall|k: int| 0 <= k < s3.len() - 1 implies binds_left(#[trigger] s3[k], o3[k]) by {
        assert(s3[k] == s2[k]);
        if k < o2.len() {
            assert(o3[k] == o2[k]);
        }
    }
    assert(stack_grouped(s3, o3));
}

proof fn lemma_climb_plain(pairs: Seq<(Expr, BinOp)>, last: Expr, snakify: bool, i: nat, s: Seq<MigratedBinOp>, o: Seq<BinOp>)
    requires
        i <= pairs.len(),
        pairs.len() <= usize::MAX,
        s.len() == o.len(),
        forall|k: int| 0 <= k < pairs.len() ==> #[trigger] pairs[k].1 != BinOp::Pizza,
        forall|k: int| 0 <= k < s.len() ==> is_plain(#[trigger] s[k]),
        forall|k: int| 0 <= k < o.len() ==> #[trigger] o[k] != BinOp::Pizza,
        stack_leaves(s) == Seq::new(i, |k: int| k),
        stack_ops(s.push(MigratedBinOp::Expr(i as usize)), o) == chain_ops(pairs).subrange(0, i as int),
        stack_grouped(s.push(MigratedBinOp::Expr(i as usize)), o),
    ensures
        climb(pairs, last, snakify, i, s, o) matches Ok(t) && is_plain(t) && well_grouped(t)
            && leaves(t) == Seq::new((pairs.len() + 1) as nat, |k: int| k)
            && tree_ops(t) == chain_ops(pairs),
    decreases pairs.len() - i,
{
    let s0 = s.push(MigratedBinOp::Expr(i as usize));
    assert(s0.drop_last() =~= s);
    assert(leaves(s0.last()) == seq![i as int]);
    assert(stack_leaves(s0) =~= Seq::new(i + 1, |k: int| k));
    assert forall|k: int| 0 <= k < s0.len() implies is_plain(#[trigger] s0[k]) by {
        if k < s.len() {
            assert(s0[k] == s[k]);
        }
    }
    if i < pairs.len() {
        let op = pairs[i as int].1;
        lemma_reduce_plain(pairs, last, snakify, s0, o, precedence_spec(op));
        let (s2, o2) = reduce(pairs, last, snakify, s0, o, precedence_spec(op)).unwrap();
        let o3 = o2.push(op);
        let s3 = s2.push(MigratedBinOp::Expr((i + 1) as usize));
        assert(s3.drop_last() =~= s2);
        assert(o3.drop_last() =~= o2);
        assert(stack_ops(s3, o3) =~= chain_ops(pairs).subrange(0, i as int + 1));
        assert forall|k: int| 0 <= k < o3.len() implies #[trigger] o3[k] != BinOp::Pizza by {
            if k < o2.len() {
                assert(o3[k] == o2[k]);
            }
        }
        lemma_push_operator(s2, o2, op, (i + 1) as usize);
        lemma_climb_plain(pairs, last, snakify, i + 1, s2, o3);
    } else {
        assert(i as usize == pairs.len() as usize);
        lemma_reduce_plain(pairs, last, snakify, s0, o, 0);
        let (s2, o2) = reduce(pairs, last, snakify, s0, o, 0).unwrap();
        assert(s2.len() == 1);
        assert(well_grouped(s2[0]));
        assert(s2.drop_last() =~= Seq::<MigratedBinOp>::empty());
        assert(stack_leaves(s2.drop_last()) == Seq::<int>::empty());
        assert(stack_leaves(s2) =~= leaves(s2.last()));
        assert(chain_ops(pairs).subrange(0, i as int) =~= chain_ops(pairs));
        assert(Seq::new(i + 1, |k: int| k) =~= Seq::new((pairs.len() + 1) as nat, |k: int| k));
    }
}

/// An operator chain without pipes keeps its order and its grouping: the
/// rewrite succeeds, adds no parentheses and no dispatch call, the tree it
/// builds names the operands first to last, left to right, with the chain's
/// operators between them in the chain's order, and every operator node has
/// the operands that ordinary precedence and associativity give it.
pub proof fn lemma_no_pipe_keeps_order(pairs: Seq<(Expr, BinOp)>, last: Expr, snakify: bool)
    requires
        pairs.len() <= usize::MAX,
        forall|k: int| 0 <= k < pairs.len() ==> #[trigger] pairs[k].1 != BinOp::Pizza,
    ensures
        migrate_spec(pairs, last, snakify) matches Ok(t) && is_plain(t) && well_grouped(t)
            && leaves(t) == Seq::new((pairs.len() + 1) as nat, |k: int| k)
            && tree_ops(t) == chain_ops(pairs),
{
    let s = Seq::<MigratedBinOp>::empty();
    assert(stack_leaves(s) =~= Seq::new(0, |k: int| k));
    assert(stack_ops(s.push(MigratedBinOp::Expr(0)), Seq::empty()) =~= chain_ops(pairs).subrange(0, 0));
    assert(stack_grouped(s.push(MigratedBinOp::Expr(0)), Seq::empty()));
    lemma_climb_plain(pairs, last, snakify, 0, s, Seq::empty());
}

/// The text of an empty collection: its two brackets.
pub open spec fn empty_text(b: Braces) -> Seq<char> {
    seq![open_brace(b), close_brace(b)]
}

proof fn lemma_coll_empty(m: BufModel, i: nat, b: Braces)
    ensures
        coll_empty(m, i, b) == m_push_str(m_indent(m, i), empty_text(b)),
        suffix_out(coll_empty(m, i, b), i, Suffix::Empty) == coll_empty(m, i, b),
{
    let m1 = m_indent(m, i);
    let m2 = m_push(m_push(m1, open_brace(b)), close_brace(b));
    assert(m2.text =~= m_push_str(m1, empty_text(b)).text);
}

/// The bracket pair of a list, tuple or record literal.
pub open spec fn literal_braces(e: Expr) -> Braces {
    if e is Tuple { Braces::Round } else if e is List { Braces::Square } else { Braces::Curly }
}

/// An empty list, tuple or record literal with no comments inside is written
/// as its two brackets and nothing else: `[]`, `()`, `{}`.
pub proof fn lemma_empty_literal(e: Expr, i: nat, m: BufModel)
    requires
        (e matches Expr::List(c) && c.items@.len() == 0 && c.final_comments@.len() == 0)
            || (e matches Expr::Tuple(c) && c.items@.len() == 0 && c.final_comments@.len() == 0)
            || (e matches Expr::Record(c) && c.items@.len() == 0 && c.final_comments@.len() == 0),
    ensures
        expr_out(e, i, Suffix::Empty, m) == Out::Ok(m_push_str(m_indent(m, i), empty_text(literal_braces(e)))),
{
    let b = literal_braces(e);
    lemma_coll_empty(m, i, b);
    assert(expr_coll_out(e, i, m) == Out::Ok(coll_empty(m, i, b)));
    assert(expr_body_out(e, i, m) == Out::Ok(coll_empty(m, i, b)));
}

/// The bracket pair of a record, tuple or list pattern.
pub open spec fn pattern_braces(p: Pattern) -> Braces {
    if p is Tuple { Braces::Round } else if p is List { Braces::Square } else { Braces::Curly }
}

/// An empty record, tuple or list pattern with no comments inside is written
/// as its two brackets and nothing else.
pub proof fn lemma_empty_pattern(p: Pattern, i: nat, m: BufModel)
    requires
        (p matches Pattern::List(c) && c.items@.len() == 0 && c.final_comments@.len() == 0)
            || (p matches Pattern::Tuple(c) && c.items@.len() == 0 && c.final_comments@.len() == 0)
            || (p matches Pattern::RecordDestructure(c) && c.items@.len() == 0 && c.final_comments@.len() == 0),
    ensures
        pattern_out(p, i, Suffix::Empty, m) == Out::Ok(m_push_str(m_indent(m, i), empty_text(pattern_braces(p)))),
{
    let b = pattern_braces(p);
    lemma_coll_empty(m, i, b);
    assert(pattern_coll_out(p, i, m) == Out::Ok(coll_empty(m, i, b)));
    assert(pattern_body_out(p, i, m) == Out::Ok(coll_empty(m, i, b)));
}

/// The bracket pair of a record, tuple or tag union type.
pub open spec fn type_braces(t: TypeAnnotation) -> Braces {
    if t is Tuple { Braces::Round } else if t is TagUnion { Braces::Square } else { Braces::Curly }
}

/// An empty closed record, tuple or tag union type with no comments inside is
/// written as its two brackets and nothing else.
pub proof fn lemma_empty_type(t: TypeAnnotation, i: nat, m: BufModel)
    requires
        (t matches TypeAnnotation::Record { fields: c, ext } && c.items@.len() == 0 && c.final_comments@.len() == 0 && ext is None)
            || (t matches TypeAnnotation::Tuple { elems: c, ext } && c.items@.len() == 0 && c.final_comments@.len() == 0 && ext is None)
            || (t matches TypeAnnotation::TagUnion { tags: c, ext } && c.items@.len() == 0 && c.final_comments@.len() == 0 && ext is None),
    ensures
        type_out(t, i, Suffix::Empty, m) == Out::Ok(m_push_str(m_indent(m, i), empty_text(type_braces(t)))),
{
    let b = type_braces(t);
    lemma_coll_empty(m, i, b);
    assert(type_coll_out(t, i, m) == Out::Ok(coll_empty(m, i, b)));
    assert(type_body_out(t, i, m) == Out::Ok(coll_empty(m, i, b)));
}

/// An identifier pattern is written in snake case when the buffer asks for
/// it, and as it is otherwise.
pub proof fn lemma_identifier_casing(p: Pattern, i: nat, m: BufModel)
    requires
        p is Identifier,
    ensures
        pattern_out(p, i, Suffix::Empty, m) == Out::Ok(m_push_str(
            m_indent(m, i),
            if m.snakify { snake_case(p->Identifier_0@) } else { p->Identifier_0@ },
        )),
{
    let m2 = crate::buf::m_ident(m_indent(m, i), p->Identifier_0@);
    assert(pattern_body_out(p, i, m) == Out::Ok(m2));
    assert(suffix_out(m2, i, Suffix::Empty) == m2);
}

/// No pipe is left in `t`: no operator node holds one, the receiver of each
/// dispatch call is never a bare operator node, and parentheses stand only
/// around an operator node.
pub open spec fn pipes_resolved(t: MigratedBinOp) -> bool
    decreases t,
{
    match t {
        MigratedBinOp::BinOp { lhs, op, rhs } => op != BinOp::Pizza && pipes_resolved(*lhs) && pipes_resolved(*rhs),
        MigratedBinOp::Parens(inner) => (*inner) is BinOp && pipes_resolved(*inner),
        MigratedBinOp::StaticDispatch { lhs, .. } => !((*lhs) is BinOp) && pipes_resolved(*lhs),
        MigratedBinOp::FuncStaticDispatch { lhs, .. } => !((*lhs) is BinOp) && pipes_resolved(*lhs),
        MigratedBinOp::Expr(_) => true,
    }
}

proof fn lemma_combine_resolved(pairs: Seq<(Expr, BinOp)>, last: Expr, lhs: MigratedBinOp, op: BinOp, rhs: MigratedBinOp, snakify: bool)
    requires
        pipes_resolved(lhs),
        pipes_resolved(rhs),
    ensures
        combine(pairs, last, lhs, op, rhs, snakify) matches Ok(t) ==> pipes_resolved(t) && leaves(t) == leaves(lhs) + leaves(rhs),
{
    if op == BinOp::Pizza {
        let p = maybe_parens_spec(lhs);
        assert(pipes_resolved(p) && !(p is BinOp) && leaves(p) == leaves(lhs));
        if let MigratedBinOp::Expr(j) = rhs {
            assert(leaves(rhs) == seq![j as int]);
            match resolve_pipe(pairs, last, lhs, rhs, snakify) {
                Ok(t) => {
                    assert(t is StaticDispatch || t is FuncStaticDispatch);
                    assert(leaves(t) =~= leaves(lhs) + leaves(rhs));
                },
                Err(_) => {},
            }
        }
    }
}

proof fn lemma_reduce_resolved(pairs: Seq<(Expr, BinOp)>, last: Expr, snakify: bool, s: Seq<MigratedBinOp>, o: Seq<BinOp>, min: u8)
    requires
        s.len() == o.len() + 1,
        forall|k: int| 0 <= k < s.len() ==> pipes_resolved(#[trigger] s[k]),
    ensures
        reduce(pairs, last, snakify, s, o, min) matches Ok((s2, o2)) ==> s2.len() == o2.len() + 1
            && (forall|k: int| 0 <= k < s2.len() ==> pipes_resolved(#[trigger] s2[k]))
            && stack_leaves(s2) == stack_leaves(s)
            && (min == 0 ==> o2.len() == 0),
    decreases o.len(),
{
    if o.len() == 0 || s.len() < 2 || stays(o.last(), min) {
        if min == 0 && o.len() > 0 {
            assert(precedence_spec(o.last()) > 0);
        }
    } else {
        let n = s.len();
        lemma_combine_resolved(pairs, last, s[n - 2], o.last(), s[n - 1], snakify);
        match combine(pairs, last, s[n - 2], o.last(), s[n - 1], snakify) {
            Ok(t) => {
                let s1 = s.subrange(0, n - 2).push(t);
                let o1 = o.drop_last();
                assert(s1.drop_last() =~= s.drop_last().drop_last());
                assert(stack_leaves(s.drop_last()) == stack_leaves(s.drop_last().drop_last()) + leaves(s[n - 2]));
                assert(stack_leaves(s1) =~= stack_leaves(s));
                assert forall|k: int| 0 <= k < s1.len() implies pipes_resolved(#[trigger] s1[k]) by {
                    if k < n - 2 {
                        assert(s1[k] == s[k]);
                    }
                }
                lemma_reduce_resolved(pairs, last, snakify, s1, o1, min);
            },
            Err(_) => {},
        }
    }
}

proof fn lemma_climb_resolved(pairs: Seq<(Expr, BinOp)>, last: Expr, snakify: bool, i: nat, s: Seq<MigratedBinOp>, o: Seq<BinOp>)
    requires
        i <= pairs.len(),
        pairs.len() <= usize::MAX,
        s.len() == o.len(),
        forall|k: int| 0 <= k < s.len() ==> pipes_resolved(#[trigger] s[k]),
        stack_leaves(s) == Seq::new(i, |k: int| k),
    ensures
        climb(pairs, last, snakify, i, s, o) matches Ok(t) ==> pipes_resolved(t)
            && leaves(t) == Seq::new((pairs.len() + 1) as nat, |k: int| k),
    decreases pairs.len() - i,
{
    let s0 = s.push(MigratedBinOp::Expr(i as usize));
    assert(s0.drop_last() =~= s);
    assert(leaves(s0.last()) == seq![i as int]);
    assert(stack_leaves(s0) =~= Seq::new(i + 1, |k: int| k));
    assert forall|k: int| 0 <= k < s0.len() implies pipes_resolved(#[trigger] s0[k]) by {
        if k < s.len() {
            assert(s0[k] == s[k]);
        }
    }
    if i < pairs.len() {
        let op = pairs[i as int].1;
        lemma_reduce_resolved(pairs, last, snakify, s0, o, precedence_spec(op));
        match reduce(pairs, last, snakify, s0, o, precedence_spec(op)) {
            Ok((s2, o2)) => lemma_climb_resolved(pairs, last, snakify, i + 1, s2, o2.push(op)),
            Err(_) => {},
        }
    } else {
        lemma_reduce_resolved(pairs, last, snakify, s0, o, 0);
        match reduce(pairs, last, snakify, s0, o, 0) {
            Ok((s2, o2)) => {
                assert(s2.len() == 1);
                assert(pipes_resolved(s2[0]));
                assert(s2.drop_last() =~= Seq::<MigratedBinOp>::empty());
                assert(stack_leaves(s2.drop_last()) == Seq::<int>::empty());
                assert(stack_leaves(s2) =~= leaves(s2.last()));
                assert(Seq::new(i + 1, |k: int| k) =~= Seq::new((pairs.len() + 1) as nat, |k: int| k));
            },
            Err(_) => {},
        }
    }
}

/// Whenever the rewrite of a chain succeeds, pipes included, no pipe is left:
/// each became a dispatch call whose receiver is the tree of everything to
/// its left, in parentheses exactly when that tree is a bare operator node;
/// and the leaves name the operands first to last, left to right.
pub proof fn lemma_pipes_resolved(pairs: Seq<(Expr, BinOp)>, last: Expr, snakify: bool)
    requires
        pairs.len() <= usize::MAX,
    ensures
        migrate_spec(pairs, last, snakify) matches Ok(t) ==> pipes_resolved(t)
            && leaves(t) == Seq::new((pairs.len() + 1) as nat, |k: int| k),
{
    let s = Seq::<MigratedBinOp>::empty();
    assert(stack_leaves(s) =~= Seq::new(0, |k: int| k));
    lemma_climb_resolved(pairs, last, snakify, 0, s, Seq::empty());
}

/// ` op ` between two operands of a chain.
pub open spec fn sep_out(m: BufModel, i: nat, op: BinOp) -> BufModel {
    m_space(m_push_str(m_space(m_indent(m, i)), op_text(op)))
}

/// Operands `lo..=hi` of the chain `e` written left to right with their
/// operators between them and nothing else, the last followed by `sfx`.
pub open spec fn flat_out(e: Expr, lo: nat, hi: nat, i: nat, sfx: Suffix, m: BufModel) -> Out
    decreases hi - lo,
{
    match e {
        Expr::BinOps(pairs, last) => if lo >= hi {
            expr_out(operand_of(pairs@, *last, lo as int), i, sfx, m)
        } else {
            match expr_out(operand_of(pairs@, *last, lo as int), i, Suffix::Empty, m) {
                Ok(m1) => flat_out(e, lo + 1, hi, i, sfx, sep_out(m1, i, pairs@[lo as int].1)),
                Err(x) => Err(x),
            }
        },
        _ => Ok(m),
    }
}

proof fn lemma_flat_split(e: Expr, lo: nat, mid: nat, hi: nat, i: nat, sfx: Suffix, m: BufModel)
    requires
        e is BinOps,
        lo <= mid < hi,
    ensures
        flat_out(e, lo, hi, i, sfx, m) == match flat_out(e, lo, mid, i, Suffix::Empty, m) {
            Ok(m1) => flat_out(e, mid + 1, hi, i, sfx, sep_out(m1, i, e->BinOps_0@[mid as int].1)),
            Err(x) => Err(x),
        },
    decreases mid - lo,
{
    if lo < mid {
        let pairs = e->BinOps_0@;
        let last = *e->BinOps_1;
        match expr_out(operand_of(pairs, last, lo as int), i, Suffix::Empty, m) {
            Ok(m1) => lemma_flat_split(e, lo + 1, mid, hi, i, sfx, sep_out(m1, i, pairs[lo as int].1)),
            Err(_) => {},
        }
    }
}

proof fn lemma_plain_counts(t: MigratedBinOp)
    requires
        is_plain(t),
    ensures
        leaves(t).len() >= 1,
        tree_ops(t).len() == leaves(t).len() - 1,
    decreases t,
{
    if let MigratedBinOp::BinOp { lhs, rhs, .. } = t {
        lemma_plain_counts(*lhs);
        lemma_plain_counts(*rhs);
    }
}

proof fn lemma_plain_text(e: Expr, t: MigratedBinOp, lo: nat, hi: nat, i: nat, sfx: Suffix, m: BufModel)
    requires
        e is BinOps,
        is_plain(t),
        lo <= hi,
        leaves(t) == Seq::new((hi - lo + 1) as nat, |k: int| lo + k),
        tree_ops(t) == chain_ops(e->BinOps_0@).subrange(lo as int, hi as int),
        hi <= e->BinOps_0@.len(),
    ensures
        conv_out(e, t, i, sfx, m) == flat_out(e, lo, hi, i, sfx, m),
    decreases t,
{
    let pairs = e->BinOps_0@;
    match t {
        MigratedBinOp::Expr(j) => {
            assert(leaves(t)[0] == lo);
        },
        MigratedBinOp::BinOp { lhs, op, rhs } => {
            lemma_plain_counts(*lhs);
            lemma_plain_counts(*rhs);
            let a = leaves(*lhs).len();
            let mid = (lo + a - 1) as nat;
            assert(leaves(*lhs) =~= leaves(t).subrange(0, a as int));
            assert(leaves(*lhs) =~= Seq::new((mid - lo + 1) as nat, |k: int| lo + k));
            assert(leaves(*rhs) =~= leaves(t).subrange(a as int, leaves(t).len() as int));
            assert(leaves(*rhs) =~= Seq::new((hi - (mid + 1) + 1) as nat, |k: int| (mid + 1) + k));
            let ops = chain_ops(pairs);
            assert(tree_ops(t) == tree_ops(*lhs).push(op) + tree_ops(*rhs));
            assert(tree_ops(*lhs) =~= tree_ops(t).subrange(0, (a - 1) as int));
            assert(tree_ops(*lhs) =~= ops.subrange(lo as int, mid as int));
            assert(op == tree_ops(t)[(a - 1) as int]);
            assert(op == pairs[mid as int].1);
            assert(tree_ops(*rhs) =~= tree_ops(t).subrange(a as int, tree_ops(t).len() as int));
            assert(tree_ops(*rhs) =~= ops.subrange((mid + 1) as int, hi as int));
            lemma_plain_text(e, *lhs, lo, mid, i, Suffix::Empty, m);
            lemma_flat_split(e, lo, mid, hi, i, sfx, m);
            match conv_out(e, *lhs, i, Suffix::Empty, m) {
                Ok(m1) => lemma_plain_text(e, *rhs, mid + 1, hi, i, sfx, sep_out(m1, i, op)),
                Err(_) => {},
            }
        },
        _ => {},
    }
}

/// An operator chain without pipes is written as its operands, left to right,
/// with ` op ` between each two and no parentheses added: the text that
/// ordinary precedence reads back into the same grouping.
pub proof fn lemma_no_pipe_text(e: Expr, i: nat, m: BufModel)
    requires
        e matches Expr::BinOps(pairs, _) && pairs@.len() <= usize::MAX
            && forall|k: int| 0 <= k < pairs@.len() ==> #[trigger] pairs@[k].1 != BinOp::Pizza,
    ensures
        expr_body_out(e, i, m) == flat_out(e, 0, e->BinOps_0@.len(), i, Suffix::Empty, m),
{
    let pairs = e->BinOps_0@;
    let last = *e->BinOps_1;
    lemma_no_pipe_keeps_order(pairs, last, m.snakify);
    let t = migrate_spec(pairs, last, m.snakify)->Ok_0;
    assert(chain_ops(pairs).subrange(0, pairs.len() as int) =~= chain_ops(pairs));
    assert(Seq::new((pairs.len() - 0 + 1) as nat, |k: int| 0 + k) =~= Seq::new((pairs.len() + 1) as nat, |k: int| k));
    lemma_plain_text(e, t, 0, pairs.len(), i, Suffix::Empty, m);
}

/// An unqualified name with at least one character.
pub open spec fn is_plain_name(e: Expr) -> bool {
    e matches Expr::Var { module_name, ident } && module_name@.len() == 0 && ident@.len() > 0
}

/// `s[0], s[1], ...`: the texts with a comma and a space between each two.
pub open spec fn comma_joined(s: Seq<Seq<char>>) -> Seq<char>
    decreases s.len(),
{
    if s.len() == 0 {
        Seq::empty()
    } else if s.len() == 1 {
        s[0]
    } else {
        s[0] + seq![',', ' '] + comma_joined(s.drop_first())
    }
}

pub open spec fn names_of(s: Seq<Expr>) -> Seq<Seq<char>> {
    s.map_values(|e: Expr| e->Var_ident@)
}

proof fn lemma_plain_args(s: Seq<Expr>, k: nat, i: nat, m: BufModel)
    requires
        k < s.len(),
        forall|j: int| 0 <= j < s.len() ==> is_plain_name(#[trigger] s[j]),
        !m.bol,
        !m.snakify,
    ensures
        exprs_out(s, k, i, false, m) == Out::Ok(BufModel {
            text: m.text + pending_seq(m) + comma_joined(names_of(s).subrange(k as int, s.len() as int)),
            pending: false,
            bol: false,
            snakify: false,
        }),
    decreases s.len() - k,
{
    let e = s[k as int];
    assert(is_plain_name(e));
    let name = e->Var_ident@;
    let m1 = m_push_str(m, name);
    assert(expr_body_out(e, i, m) == Out::Ok(m1));
    let rest = names_of(s).subrange(k as int, s.len() as int);
    assert(rest[0] == name);
    if k + 1 < s.len() {
        let m2 = m_push_str(m1, seq![',']);
        assert(suffix_out(m1, i, Suffix::Comma) == m2);
        assert(expr_out(e, i, Suffix::Comma, m) == Out::Ok(m2));
        assert(exprs_out(s, k, i, false, m) == exprs_out(s, k + 1, i, false, m_space(m2)));
        lemma_plain_args(s, k + 1, i, m_space(m2));
        assert(rest.len() >= 2);
        assert(comma_joined(rest) == rest[0] + seq![',', ' '] + comma_joined(rest.drop_first()));
        assert(rest.drop_first() =~= names_of(s).subrange((k + 1) as int, s.len() as int));
        assert(m2.text + seq![' '] + comma_joined(rest.drop_first()) =~= m.text + pending_seq(m) + comma_joined(rest));
    } else {
        assert(suffix_out(m1, i, Suffix::Empty) == m1);
        assert(expr_out(e, i, Suffix::Empty, m) == Out::Ok(m1));
        assert(exprs_out(s, k + 1, i, false, m1) == Out::Ok(m1));
        assert(rest.len() == 1);
        assert(m1.text =~= m.text + pending_seq(m) + comma_joined(rest));
    }
}

/// A call `f a b ..` of plain names is written `f(a, b, ..)`: a comma and a
/// space between each two arguments, none after the last.
pub proof fn lemma_call_separators(e: Expr, i: nat, m: BufModel)
    requires
        e matches Expr::Apply(f, args) && is_plain_name(*f)
            && forall|j: int| 0 <= j < args@.len() ==> is_plain_name(#[trigger] args@[j]),
        !m.bol,
        !m.snakify,
    ensures
        expr_out(e, i, Suffix::Empty, m) == Out::Ok(BufModel {
            text: m.text + pending_seq(m) + (*e->Apply_0)->Var_ident@ + seq!['('] + comma_joined(names_of(e->Apply_1@)) + seq![')'],
            pending: false,
            bol: false,
            snakify: false,
        }),
{
    let f = *e->Apply_0;
    let args = e->Apply_1@;
    let m1 = m_push_str(m_push_str(m, f->Var_ident@), seq!['(']);
    assert(expr_body_out(f, i, m) == Out::Ok(m_push_str(m, f->Var_ident@)));
    assert(expr_out(f, i, Suffix::OpenRound, m) == Out::Ok(m1));
    let m2 = BufModel {
        text: m1.text + comma_joined(names_of(args)),
        pending: false,
        bol: false,
        snakify: false,
    };
    if args.len() > 0 {
        lemma_plain_args(args, 0, i, m1);
        assert(names_of(args).subrange(0, args.len() as int) =~= names_of(args));
    } else {
        assert(comma_joined(names_of(args)) =~= Seq::<char>::empty());
        assert(m1.text =~= m2.text);
    }
    assert(exprs_out(args, 0, i, false, m1) == Out::Ok(m2));
    reveal_strlit(")");
    assert(")"@ =~= seq![')']);
    let m3 = m_push_str(m_indent(m2, i), seq![')']);
    assert(expr_body_out(e, i, m) == Out::Ok(m3));
    assert(m3.text =~= m.text + pending_seq(m) + f->Var_ident@ + seq!['('] + comma_joined(names_of(args)) + seq![')']);
}

} // verus!
