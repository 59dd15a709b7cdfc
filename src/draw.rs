use vstd::prelude::*;

use crate::model::model_indices;
use crate::model::model_vertices;
use crate::model::Mesh;

verus! {

/// One indexed draw: indices `[index_start, index_end)` of the index buffer,
/// each offset by `base_vertex` into the vertex buffer.
#[derive(Clone, Copy, Debug, PartialEq, Eq, Structural)]
pub struct DrawCall {
    pub base_vertex: i32,
    pub index_start: u32,
    pub index_end: u32,
}

/// A step of the recorded render pass.
#[derive(Clone, Copy, Debug, PartialEq, Eq, Structural)]
pub enum RenderCommand {
    /// Binds the uniform buffer at this dynamic offset.
    BindUniforms { offset: u32 },
    DrawIndexed(DrawCall),
}

/// The draw calls for the meshes of one model, given how many vertices and
/// indices were staged before it.
pub open spec fn model_calls(ms: Seq<Mesh>, v0: int, i0: int) -> Seq<DrawCall>
    decreases ms.len(),
{
    if ms.len() == 0 {
        Seq::empty()
    } else {
        let prefix = ms.drop_last();
        let start = i0 + model_indices(prefix).len();
        model_calls(prefix, v0, i0).push(
            DrawCall {
                base_vertex: (v0 + model_vertices(prefix).len()) as i32,
                index_start: start as u32,
                index_end: (start + ms.last().indices@.len()) as u32,
            },
        )
    }
}

/// The render pass for the staged batches, in the order they were drawn:
/// each batch binds its own record, then draws each of its meshes.
pub open spec fn batch_commands(batches: Seq<Seq<DrawCall>>, alignment: int) -> Seq<RenderCommand>
    decreases batches.len(),
{
    if batches.len() == 0 {
        Seq::empty()
    } else {
        let n = batches.len() - 1;
        batch_commands(batches.drop_last(), alignment)
            + seq![RenderCommand::BindUniforms { offset: (n * alignment) as u32 }]
            + batches.last().map_values(|c: DrawCall| RenderCommand::DrawIndexed(c))
    }
}

/// Number of draw calls over all batches.
pub open spec fn call_count(batches: Seq<Seq<DrawCall>>) -> int
    decreases batches.len(),
{
    if batches.len() == 0 {
        0
    } else {
        call_count(batches.drop_last()) + batches.last().len()
    }
}

proof fn lemma_batch_commands_len(batches: Seq<Seq<DrawCall>>, a: int)
    ensures
        batch_commands(batches, a).len() == batches.len() + call_count(batches),
        call_count(batches) >= 0,
    decreases batches.len(),
{
    if batches.len() > 0 {
        lemma_batch_commands_len(batches.drop_last(), a);
    }
}

proof fn lemma_call_count_prefix(batches: Seq<Seq<DrawCall>>, k: int)
    requires
        0 <= k <= batches.len(),
    ensures
        call_count(batches.take(k)) <= call_count(batches),
    decreases batches.len(),
{
    lemma_batch_commands_len(batches, 0);
    if k == batches.len() {
        assert(batches.take(k) =~= batches);
    } else {
        assert(batches.drop_last().take(k) =~= batches.take(k));
        lemma_call_count_prefix(batches.drop_last(), k);
    }
}

/// In the render pass, the `k`-th model drawn in the frame is bound at
/// `k * alignment`, however many meshes the models before it had, and its
/// own draws follow that binding in order.
pub proof fn lemma_batch_bound_at_aligned_offset(batches: Seq<Seq<DrawCall>>, a: int, k: int)
    requires
        0 <= k < batches.len(),
    ensures
        ({
            let cmds = batch_commands(batches, a);
            let p = k + call_count(batches.take(k));
            &&& p + batches[k].len() < cmds.len()
            &&& cmds[p] == RenderCommand::BindUniforms { offset: (k * a) as u32 }
            &&& forall|j: int|
                0 <= j < batches[k].len() ==> cmds[p + 1 + j] == RenderCommand::DrawIndexed(
                    #[trigger] batches[k][j],
                )
        }),
    decreases batches.len(),
{
    let prefix = batches.drop_last();
    let n = batches.len() - 1;
    lemma_batch_commands_len(prefix, a);
    lemma_batch_commands_len(batches, a);
    let cmds = batch_commands(batches, a);
    let head = batch_commands(prefix, a);
    assert(cmds == head + seq![RenderCommand::BindUniforms { offset: (n * a) as u32 }]
        + batches.last().map_values(|c: DrawCall| RenderCommand::DrawIndexed(c)));
    if k == n {
        assert(batches.take(k) =~= prefix);
    } else {
        lemma_batch_bound_at_aligned_offset(prefix, a, k);
        assert(prefix.take(k) =~= batches.take(k));
        assert(prefix.take(k + 1).drop_last() =~= prefix.take(k));
        lemma_call_count_prefix(prefix, k + 1);
        lemma_batch_commands_len(prefix.take(k + 1), a);
    }
}

/// Every draw call of the frame, batch after batch.
pub open spec fn flat_calls(batches: Seq<Seq<DrawCall>>) -> Seq<DrawCall>
    decreases batches.len(),
{
    if batches.len() == 0 {
        Seq::empty()
    } else {
        flat_calls(batches.drop_last()) + batches.last()
    }
}

/// Call `j + 1` starts where call `j` ends, at a base vertex no lower.
pub open spec fn follows(cs: Seq<DrawCall>, j: int) -> bool {
    &&& cs[j].index_end == cs[j + 1].index_start
    &&& cs[j].base_vertex <= cs[j + 1].base_vertex
}

/// The calls cover indices `[i0, i1)` in consecutive ranges, in order, and
/// their base vertices never decrease and lie in `[v0, v1]`.
pub open spec fn ordered_calls(cs: Seq<DrawCall>, i0: int, i1: int, v0: int, v1: int) -> bool {
    &&& forall|j: int|
        0 <= j < cs.len() ==> {
            &&& v0 <= (#[trigger] cs[j]).base_vertex <= v1
            &&& cs[j].index_start <= cs[j].index_end
        }
    &&& forall|j: int| 0 <= j < cs.len() - 1 ==> #[trigger] follows(cs, j)
    &&& cs.len() == 0 ==> i0 == i1
    &&& cs.len() > 0 ==> cs[0].index_start == i0 && cs.last().index_end == i1
}

pub(crate) proof fn lemma_ordered_concat(
    a: Seq<DrawCall>,
    b: Seq<DrawCall>,
    i0: int,
    i1: int,
    i2: int,
    v0: int,
    v1: int,
    v2: int,
)
    requires
        ordered_calls(a, i0, i1, v0, v1),
        ordered_calls(b, i1, i2, v1, v2),
        v0 <= v1 <= v2,
    ensures
        ordered_calls(a + b, i0, i2, v0, v2),
{
    let c = a + b;
    assert forall|j: int| 0 <= j < c.len() - 1 implies #[trigger] follows(c, j) by {
        if j < a.len() - 1 {
            assert(follows(a, j));
            assert(c[j] == a[j] && c[j + 1] == a[j + 1]);
        } else if j == a.len() - 1 {
            assert(c[j] == a[j] && c[j + 1] == b[0]);
        } else {
            assert(follows(b, j - a.len()));
            assert(c[j] == b[j - a.len()] && c[j + 1] == b[j + 1 - a.len()]);
        }
    }
    assert forall|j: int| 0 <= j < c.len() implies {
        &&& v0 <= (#[trigger] c[j]).base_vertex <= v2
        &&& c[j].index_start <= c[j].index_end
    } by {
        if j < a.len() {
            assert(c[j] == a[j]);
        } else {
            assert(c[j] == b[j - a.len()]);
        }
    }
    if a.len() == 0 {
        assert(c =~= b);
    } else if b.len() == 0 {
        assert(c =~= a);
    } else {
        assert(c[0] == a[0]);
        assert(c.last() == b.last());
    }
}

pub(crate) proof fn lemma_model_calls_ordered(ms: Seq<Mesh>, v0: int, i0: int)
    requires
        0 <= v0,
        0 <= i0,
        v0 + model_vertices(ms).len() <= i32::MAX,
        i0 + model_indices(ms).len() <= u32::MAX,
    ensures
        ordered_calls(
            model_calls(ms, v0, i0),
            i0,
            i0 + model_indices(ms).len(),
            v0,
            v0 + model_vertices(ms).len(),
        ),
    decreases ms.len(),
{
    if ms.len() > 0 {
        let prefix = ms.drop_last();
        let nv = model_vertices(prefix).len();
        let ni = model_indices(prefix).len();
        lemma_model_calls_ordered(prefix, v0, i0);
        let call = DrawCall {
            base_vertex: (v0 + nv) as i32,
            index_start: (i0 + ni) as u32,
            index_end: (i0 + ni + ms.last().indices@.len()) as u32,
        };
        assert(model_calls(ms, v0, i0) == model_calls(prefix, v0, i0) + seq![call]);
        lemma_ordered_concat(
            model_calls(prefix, v0, i0),
            seq![call],
            i0,
            i0 + ni,
            i0 + model_indices(ms).len(),
            v0,
            v0 + nv,
            v0 + model_vertices(ms).len(),
        );
    }
}

pub(crate) proof fn lemma_call_ends_within(cs: Seq<DrawCall>, i1: int, v1: int, j: int)
    requires
        ordered_calls(cs, 0, i1, 0, v1),
        0 <= j < cs.len(),
    ensures
        cs[j].index_end <= i1,
    decreases cs.len() - j,
{
    if j < cs.len() - 1 {
        lemma_call_ends_within(cs, i1, v1, j + 1);
        assert(follows(cs, j));
    }
}

} // verus!
