//! The float-free part of turning a model into a mesh: which child slots are
//! compiled, in which order, how the compiled children are folded into one
//! shape, and the ways compilation fails.
//!
//! Shapes are compiled into a `saft` graph; its node handles (`N`) are
//! carried as they are.

use vstd::prelude::*;

verus! {

#[verifier::external_type_specification]
#[verifier::external_body]
pub struct ExSaftError(saft::Error);

/// Why a model cannot be turned into a mesh.
#[derive(Debug)]
pub enum CompilationError {
    /// The mesh generation backend failed.
    SaftError(saft::Error),
    /// The model has no root node.
    NoRootNode,
    /// The mesh has no volume.
    NoVolume,
    /// The mesh has infinite bounds.
    InfiniteBounds,
    /// An operation node has no children.
    NoChildren,
    /// A node has a negative scale.
    NegativeScale,
    /// A shape has a negative size.
    NegativeSize,
}

/// The ids in the filled slots of `slots`, in order.
pub open spec fn filled(slots: Seq<Option<crate::node::NodeId>>) -> Seq<crate::node::NodeId>
    decreases slots.len(),
{
    if slots.len() == 0 {
        Seq::empty()
    } else {
        match slots.last() {
            Some(id) => filled(slots.drop_last()).push(id),
            None => filled(slots.drop_last()),
        }
    }
}

/// Whether `ctxs` and `acc` are the contexts and running results of folding
/// `nodes` from the left with `operation`, starting in the context `ctx`:
/// the first result is the first node, and each next context and result
/// are what one call of the operation gave, in the context before it, for
/// the previous result and the next node.
pub open spec fn is_left_fold<N, C, F: Fn(C, N, N) -> (C, N)>(
    nodes: Seq<N>,
    operation: F,
    ctx: C,
    ctxs: Seq<C>,
    acc: Seq<N>,
) -> bool {
    &&& acc.len() == nodes.len()
    &&& ctxs.len() == nodes.len()
    &&& acc.len() > 0 ==> acc[0] == nodes[0] && ctxs[0] == ctx
    &&& forall|i: int|
        0 < i < acc.len() ==> call_ensures(operation, (ctxs[i - 1], acc[i - 1], nodes[i]), (ctxs[i], #[trigger] acc[i]))
}

/// Folds the compiled children from the left with `operation`, which works
/// in the context `ctx` (where its effects go) and hands it on: with `n`
/// children it is called exactly `n - 1` times, each time on the result so
/// far and the next child, in the context the previous call handed back.
/// One child is returned as it is, with no call; no child at all is an
/// error. The context is returned with the result.
pub fn apply_infix_operation_over_array<N: Copy, C, F: Fn(C, N, N) -> (C, N)>(
    nodes: &[N],
    ctx: C,
    operation: F,
) -> (r: (C, Result<N, CompilationError>))
    requires
        forall|c: C, a: N, b: N| call_requires(operation, (c, a, b)),
    ensures
        nodes@.len() == 0 ==> r.0 == ctx && r.1 == Err::<N, CompilationError>(CompilationError::NoChildren),
        nodes@.len() == 1 ==> r.0 == ctx && r.1 == Ok::<N, CompilationError>(nodes@[0]),
        nodes@.len() > 0 ==> exists|ctxs: Seq<C>, acc: Seq<N>|
            is_left_fold(nodes@, operation, ctx, ctxs, acc) && r.0 == ctxs.last() && r.1 == Ok::<
                N,
                CompilationError,
            >(acc.last()),
{
    let ghost ctx0 = ctx;
    if nodes.len() == 0 {
        return (ctx, Err(CompilationError::NoChildren));
    }
    let mut c = ctx;
    let mut new_node_id = nodes[0];
    let ghost mut ctxs: Seq<C> = seq![c];
    let ghost mut acc: Seq<N> = seq![new_node_id];
    let mut i: usize = 1;
    while i < nodes.len()
        invariant
            1 <= i <= nodes@.len(),
            forall|c: C, a: N, b: N| call_requires(operation, (c, a, b)),
            is_left_fold(nodes@.take(i as int), operation, ctx0, ctxs, acc),
            c == ctxs.last(),
            new_node_id == acc.last(),
        decreases nodes@.len() - i,
    {
        let rhs = nodes[i];
        let (next_c, next_node) = operation(c, new_node_id, rhs);
        proof {
            ctxs = ctxs.push(next_c);
            acc = acc.push(next_node);
        }
        c = next_c;
        new_node_id = next_node;
        i = i + 1;
        assert(is_left_fold(nodes@.take(i as int), operation, ctx0, ctxs, acc)) by {
            assert forall|k: int| 0 < k < acc.len() implies call_ensures(
                operation,
                (ctxs[k - 1], acc[k - 1], nodes@.take(i as int)[k]),
                (ctxs[k], #[trigger] acc[k]),
            ) by {
                if k < i - 1 {
                    assert(nodes@.take(i - 1)[k] == nodes@.take(i as int)[k]);
                }
            }
        }
    }
    assert(nodes@.take(i as int) =~= nodes@);
    (c, Ok(new_node_id))
}

/// How the compiled children of a union are combined.
#[derive(Debug)]
pub enum UnionShape<N> {
    /// A union of exactly two shapes.
    Binary(N, N),
    /// A union of all the shapes, however many.
    Multi(Vec<N>),
}

/// How a union combines its compiled children `nodes`: no child is an
/// error, two are combined by a binary union, and any other number (one, or
/// three and more) by a union of all of them.
pub fn union_shape<N: Copy>(nodes: Vec<N>) -> (r: Result<UnionShape<N>, CompilationError>)
    ensures
        nodes@.len() == 0 <==> (r matches Err(e) && e is NoChildren),
        nodes@.len() == 2 ==> (r matches Ok(UnionShape::Binary(a, b)) && a == nodes@[0] && b == nodes@[1]),
        nodes@.len() != 0 && nodes@.len() != 2 ==> (r matches Ok(UnionShape::Multi(v)) && v@ == nodes@),
{
    if nodes.len() == 0 {
        Err(CompilationError::NoChildren)
    } else if nodes.len() == 2 {
        Ok(UnionShape::Binary(nodes[0], nodes[1]))
    } else {
        Ok(UnionShape::Multi(nodes))
    }
}

/// Whether the first `results.len()` of the ids `ids` were compiled, in
/// order, with `compile_node`, starting in the context `ctx`: each result,
/// and the context after it, is what one call gave for the next id in the
/// context the previous call handed back (`ctxs`).
pub open spec fn compiled_in_order<N, C, F: Fn(C, crate::node::NodeId) -> (C, Result<N, CompilationError>)>(
    ids: Seq<crate::node::NodeId>,
    compile_node: F,
    ctx: C,
    ctxs: Seq<C>,
    results: Seq<Result<N, CompilationError>>,
) -> bool {
    &&& results.len() <= ids.len()
    &&& ctxs.len() == results.len() + 1
    &&& ctxs[0] == ctx
    &&& forall|j: int|
        0 <= j < results.len() ==> call_ensures(compile_node, (ctxs[j], ids[j]), (ctxs[j + 1], #[trigger] results[j]))
}

proof fn lemma_filled_push(slots: Seq<Option<crate::node::NodeId>>, s: Option<crate::node::NodeId>)
    ensures
        filled(slots.push(s)) == (match s {
            Some(id) => filled(slots).push(id),
            None => filled(slots),
        }),
{
    assert(slots.push(s).drop_last() =~= slots);
}

/// Compiles the filled child slots, in order, with `compile_node`, which
/// works in the context `ctx` and hands it on, and stops at the first error:
/// `compile_node` is called exactly once for each filled slot up to and
/// including the first that fails, and for no other. The context is
/// returned with the result.
pub fn compile_nodes<N, C, F: Fn(C, crate::node::NodeId) -> (C, Result<N, CompilationError>)>(
    nodes: &[Option<crate::node::NodeId>],
    ctx: C,
    compile_node: F,
) -> (r: (C, Result<Vec<N>, CompilationError>))
    requires
        forall|c: C, id: crate::node::NodeId| call_requires(compile_node, (c, id)),
    ensures
        exists|ctxs: Seq<C>, results: Seq<Result<N, CompilationError>>|
            {
                &&& compiled_in_order(filled(nodes@), compile_node, ctx, ctxs, results)
                &&& r.0 == ctxs.last()
                &&& match r.1 {
                    Ok(v) => {
                        &&& results.len() == filled(nodes@).len()
                        &&& v@.len() == results.len()
                        &&& forall|j: int|
                            0 <= j < v@.len() ==> results[j] == Ok::<N, CompilationError>(#[trigger] v@[j])
                    },
                    Err(e) => {
                        &&& results.len() > 0
                        &&& results.last() == Err::<N, CompilationError>(e)
                        &&& forall|j: int| 0 <= j < results.len() - 1 ==> (#[trigger] results[j]) is Ok
                    },
                }
            },
{
    let ghost ctx0 = ctx;
    let ghost ids = filled(nodes@);
    let mut c = ctx;
    let ghost mut ctxs: Seq<C> = seq![c];
    let ghost mut results: Seq<Result<N, CompilationError>> = Seq::empty();
    let mut out: Vec<N> = Vec::new();
    let mut i: usize = 0;
    while i < nodes.len()
        invariant
            i <= nodes@.len(),
            forall|c: C, id: crate::node::NodeId| call_requires(compile_node, (c, id)),
            ids == filled(nodes@),
            ctx0 == ctx,
            compiled_in_order(ids, compile_node, ctx0, ctxs, results),
            results.len() == filled(nodes@.take(i as int)).len(),
            filled(nodes@.take(i as int)) == ids.take(results.len() as int),
            c == ctxs.last(),
            out@.len() == results.len(),
            forall|j: int| 0 <= j < out@.len() ==> results[j] == Ok::<N, CompilationError>(#[trigger] out@[j]),
        decreases nodes@.len() - i,
    {
        proof {
            lemma_filled_push(nodes@.take(i as int), nodes@[i as int]);
            assert(nodes@.take(i + 1) =~= nodes@.take(i as int).push(nodes@[i as int]));
            lemma_filled_prefix(nodes@, i as int + 1);
        }
        match nodes[i] {
            Some(id) => {
                let ghost j = results.len() as int;
                proof {
                    assert(filled(nodes@.take(i + 1)) == filled(nodes@.take(i as int)).push(id));
                    assert(filled(nodes@.take(i + 1))[j] == id);
                    assert(ids[j] == ids.take(j + 1)[j]);
                }
                let (next_c, res) = compile_node(c, id);
                let ghost old_results = results;
                let ghost old_ctxs = ctxs;
                proof {
                    results = results.push(res);
                    ctxs = ctxs.push(next_c);
                    assert forall|k: int| 0 <= k < results.len() implies call_ensures(
                        compile_node,
                        (ctxs[k], ids[k]),
                        (ctxs[k + 1], #[trigger] results[k]),
                    ) by {
                        if k < j {
                            assert(results[k] == old_results[k]);
                            assert(ctxs[k] == old_ctxs[k]);
                            assert(ctxs[k + 1] == old_ctxs[k + 1]);
                        }
                    }
                }
                c = next_c;
                match res {
                    Ok(n) => {
                        out.push(n);
                    },
                    Err(e) => {
                        assert forall|k: int| 0 <= k < results.len() - 1 implies (#[trigger] results[k]) is Ok by {
                            assert(results[k] == old_results[k]);
                            assert(old_results[k] == Ok::<N, CompilationError>(out@[k]));
                        }
                        assert(compiled_in_order(filled(nodes@), compile_node, ctx0, ctxs, results));
                        return (c, Err(e));
                    },
                }
            },
            None => {},
        }
        i = i + 1;
    }
    assert(nodes@.take(i as int) =~= nodes@);
    assert(ids.take(results.len() as int) =~= ids);
    (c, Ok(out))
}

proof fn lemma_filled_prefix(slots: Seq<Option<crate::node::NodeId>>, n: int)
    requires
        0 <= n <= slots.len(),
    ensures
        filled(slots.take(n)).len() <= filled(slots).len(),
        filled(slots.take(n)) == filled(slots).take(filled(slots.take(n)).len() as int),
    decreases slots.len(),
{
    if n == slots.len() {
        assert(slots.take(n) =~= slots);
        assert(filled(slots).take(filled(slots).len() as int) =~= filled(slots));
    } else {
        lemma_filled_prefix(slots.drop_last(), n);
        assert(slots.drop_last().take(n) =~= slots.take(n));
        let f = filled(slots.drop_last());
        let k = filled(slots.take(n)).len() as int;
        match slots.last() {
            Some(id) => {
                assert(f.push(id).take(k) =~= f.take(k));
            },
            None => {},
        }
    }
}

/// The filled slots, in order: each entry of `filled(slots)` is the id of
/// one filled slot, the slots come in increasing order, and every filled
/// slot has its entry. The positions of those slots are returned.
pub proof fn lemma_filled_slots(slots: Seq<Option<crate::node::NodeId>>) -> (idx: Seq<int>)
    ensures
        idx.len() == filled(slots).len(),
        forall|j: int|
            0 <= j < idx.len() ==> 0 <= #[trigger] idx[j] < slots.len() && slots[idx[j]] == Some(filled(slots)[j]),
        forall|j: int, k: int| 0 <= j < k < idx.len() ==> idx[j] < idx[k],
        forall|i: int| 0 <= i < slots.len() && (#[trigger] slots[i]) is Some ==> exists|j: int| 0 <= j < idx.len() && idx[j] == i,
    decreases slots.len(),
{
    if slots.len() == 0 {
        Seq::empty()
    } else {
        let rest = slots.drop_last();
        let idx0 = lemma_filled_slots(rest);
        let n = slots.len() - 1;
        assert forall|j: int| 0 <= j < idx0.len() implies slots[idx0[j]] == rest[idx0[j]] by {}
        match slots.last() {
            Some(id) => {
                let idx = idx0.push(n);
                assert(filled(slots) == filled(rest).push(id));
                assert forall|j: int| 0 <= j < idx.len() implies 0 <= #[trigger] idx[j] < slots.len() && slots[idx[j]]
                    == Some(filled(slots)[j]) by {
                    if j < idx0.len() {
                        assert(idx[j] == idx0[j]);
                        assert(filled(slots)[j] == filled(rest)[j]);
                    }
                }
                assert forall|i: int| 0 <= i < slots.len() && (#[trigger] slots[i]) is Some implies exists|j: int|
                    0 <= j < idx.len() && idx[j] == i by {
                    if i < n {
                        assert(rest[i] == slots[i]);
                        let j = choose|j: int| 0 <= j < idx0.len() && idx0[j] == i;
                        assert(idx[j] == i);
                    } else {
                        assert(idx[idx0.len() as int] == i);
                    }
                }
                idx
            },
            None => {
                assert(filled(slots) == filled(rest));
                assert forall|i: int| 0 <= i < slots.len() && (#[trigger] slots[i]) is Some implies exists|j: int|
                    0 <= j < idx0.len() && idx0[j] == i by {
                    if i < n {
                        assert(rest[i] == slots[i]);
                    }
                }
                idx0
            },
        }
    }
}

} // verus!
