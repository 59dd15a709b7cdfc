use vstd::prelude::*;

use crate::bytes::lemma_words_bytes_len;
use crate::bytes::words_bytes;
use crate::draw::batch_commands;
use crate::draw::flat_calls;
use crate::draw::follows;
use crate::draw::lemma_call_ends_within;
use crate::draw::lemma_model_calls_ordered;
use crate::draw::lemma_ordered_concat;
use crate::draw::model_calls;
use crate::draw::ordered_calls;
use crate::draw::DrawCall;
use crate::draw::RenderCommand;
use crate::model::encode_indices;
use crate::model::encode_vertices;
use crate::model::lemma_vertices_bytes_len;
use crate::model::model_indices;
use crate::model::model_vertices;
use crate::model::vertices_bytes;
use crate::model::Mesh;
use crate::model::Model;
use crate::model::Vertex;
use crate::model::INDEX_SIZE;
use crate::model::VERTEX_SIZE;
use crate::result::GearError;
use crate::result::StagingKind;
use crate::submit::SubmitPhase;
use crate::uniform::encode_records;
use crate::uniform::is_pow2;
use crate::uniform::is_power_of_two;
use crate::uniform::lemma_records_bytes_len;
use crate::uniform::records_bytes;
use crate::uniform::Locals;
use crate::uniform::LOCALS_SIZE;
use crate::uniform::MAX_UNIFORM_COUNT;
use crate::uniform::UNIFORM_ALIGNMENT;

verus! {

/// Size in bytes of the vertex buffer.
pub const VERTEX_BUFFER_SIZE: u64 = 32000000;

/// Size in bytes of the index buffer.
pub const INDEX_BUFFER_SIZE: u64 = 32000000;

/// Capacities that a frame can be staged against: every staged offset must
/// fit the integer width the GPU API takes it in.
pub open spec fn valid_limits(
    vertex_capacity: int,
    index_capacity: int,
    uniform_capacity: int,
    alignment: int,
) -> bool {
    &&& vertex_capacity <= u32::MAX
    &&& index_capacity <= u32::MAX
    &&& is_pow2(alignment)
    &&& alignment >= LOCALS_SIZE
    &&& uniform_capacity * alignment <= u32::MAX + 1
}

/// What has been staged this frame, and against which capacities.
pub struct FrameView {
    pub vertices: Seq<Vertex>,
    pub indices: Seq<u32>,
    pub locals: Seq<Locals>,
    pub batches: Seq<Seq<DrawCall>>,
    pub vertex_capacity: int,
    pub index_capacity: int,
    pub uniform_capacity: int,
    pub alignment: int,
}

impl FrameView {
    /// Valid limits; what is staged fits every buffer; one batch per
    /// record; the draw calls cover the staged indices in order.
    pub open spec fn wf(self) -> bool {
        &&& valid_limits(
            self.vertex_capacity,
            self.index_capacity,
            self.uniform_capacity,
            self.alignment,
        )
        &&& VERTEX_SIZE * self.vertices.len() <= self.vertex_capacity
        &&& INDEX_SIZE * self.indices.len() <= self.index_capacity
        &&& self.locals.len() <= self.uniform_capacity
        &&& self.batches.len() == self.locals.len()
        &&& ordered_calls(
            flat_calls(self.batches),
            0,
            self.indices.len() as int,
            0,
            self.vertices.len() as int,
        )
    }

    /// Nothing is staged.
    pub open spec fn is_empty(self) -> bool {
        &&& self.vertices.len() == 0
        &&& self.indices.len() == 0
        &&& self.locals.len() == 0
        &&& self.batches.len() == 0
    }

    /// The same capacities with nothing staged.
    pub open spec fn cleared(self) -> FrameView {
        FrameView {
            vertices: Seq::empty(),
            indices: Seq::empty(),
            locals: Seq::empty(),
            batches: Seq::empty(),
            ..self
        }
    }

    /// Which buffer, checked in the order vertex, index, uniform, a draw of
    /// these meshes would overflow; `None` when it fits.
    pub open spec fn overflow(self, ms: Seq<Mesh>) -> Option<StagingKind> {
        if VERTEX_SIZE * (self.vertices.len() + model_vertices(ms).len()) > self.vertex_capacity {
            Some(StagingKind::Vertex)
        } else if INDEX_SIZE * (self.indices.len() + model_indices(ms).len())
            > self.index_capacity {
            Some(StagingKind::Index)
        } else if self.locals.len() + 1 > self.uniform_capacity {
            Some(StagingKind::Uniform)
        } else {
            None
        }
    }

    /// The frame after one more model is staged with its record.
    pub open spec fn drawn(self, ms: Seq<Mesh>, l: Locals) -> FrameView {
        FrameView {
            vertices: self.vertices + model_vertices(ms),
            indices: self.indices + model_indices(ms),
            locals: self.locals.push(l),
            batches: self.batches.push(model_calls(ms, self.vertices.len() as int, self.indices.len() as int)),
            ..self
        }
    }
}

/// Whatever sequence of draws was accepted, each upload of the frame fits
/// the GPU buffer it is written to.
pub proof fn lemma_uploads_fit_buffers(f: FrameView)
    requires
        f.wf(),
    ensures
        vertices_bytes(f.vertices).len() <= f.vertex_capacity,
        words_bytes(f.indices).len() <= f.index_capacity,
        records_bytes(f.locals, f.alignment).len() <= f.uniform_capacity * f.alignment,
{
    lemma_vertices_bytes_len(f.vertices);
    lemma_words_bytes_len(f.indices);
    lemma_records_bytes_len(f.locals, f.alignment);
    let n = f.locals.len() as int;
    let c = f.uniform_capacity;
    let a = f.alignment;
    assert(n * a <= c * a) by (nonlinear_arith)
        requires n <= c, a >= 0;
}

/// In every frame, the draw calls in the order they were recorded, within
/// and across batches, cover the staged indices in consecutive ranges that
/// never overlap, and their base vertices never decrease.
pub proof fn lemma_draw_calls_ordered(f: FrameView, i: int, j: int)
    requires
        f.wf(),
        0 <= i < j < flat_calls(f.batches).len(),
    ensures
        ({
            let cs = flat_calls(f.batches);
            &&& cs[i].index_start <= cs[i].index_end
            &&& cs[i].index_end <= cs[j].index_start
            &&& cs[i].index_start < cs[i].index_end ==> cs[i].index_start < cs[j].index_start
            &&& cs[i].base_vertex <= cs[j].base_vertex
            &&& cs[j].index_end <= f.indices.len()
            &&& cs[j].base_vertex <= f.vertices.len()
        }),
    decreases j - i,
{
    let cs = flat_calls(f.batches);
    if j > i + 1 {
        lemma_draw_calls_ordered(f, i, j - 1);
        lemma_draw_calls_ordered(f, j - 1, j);
    } else {
        assert(follows(cs, i));
    }
    lemma_call_ends_within(cs, f.indices.len() as int, f.vertices.len() as int, j);
}

/// Geometry, per-draw records and draw calls accumulated during one frame,
/// bounded by the fixed sizes of the GPU buffers they are uploaded to.
pub struct FrameStaging {
    vertex_capacity: u64,
    index_capacity: u64,
    uniform_capacity: u64,
    alignment: u64,
    vertex_data: Vec<Vertex>,
    index_data: Vec<u32>,
    uniform_data: Vec<Locals>,
    draw_calls: Vec<Vec<DrawCall>>,
}

impl View for FrameStaging {
    type V = FrameView;

    closed spec fn view(&self) -> FrameView {
        FrameView {
            vertices: self.vertex_data@,
            indices: self.index_data@,
            locals: self.uniform_data@,
            batches: self.draw_calls@.map_values(|b: Vec<DrawCall>| b@),
            vertex_capacity: self.vertex_capacity as int,
            index_capacity: self.index_capacity as int,
            uniform_capacity: self.uniform_capacity as int,
            alignment: self.alignment as int,
        }
    }
}


pub proof fn lemma_mul_le_iff_le_div(x: int, k: int, c: int)
    requires
        x >= 0,
        k > 0,
        c >= 0,
    ensures
        (k * x <= c) == (x <= c / k),
{
    assert((k * x <= c) ==> (x <= c / k)) by (nonlinear_arith)
        requires x >= 0, k > 0, c >= 0;
    assert((x <= c / k) ==> (k * x <= c)) by (nonlinear_arith)
        requires x >= 0, k > 0, c >= 0;
}

proof fn lemma_model_step(ms: Seq<Mesh>, i: int)
    requires
        0 <= i < ms.len(),
    ensures
        model_vertices(ms.take(i + 1)) == model_vertices(ms.take(i)) + ms[i].vertices@,
        model_indices(ms.take(i + 1)) == model_indices(ms.take(i)) + ms[i].indices@,
        ms.take(i + 1).drop_last() == ms.take(i),
        ms.take(i + 1).last() == ms[i],
{
    assert(ms.take(i + 1).drop_last() =~= ms.take(i));
}

proof fn lemma_model_prefix_len(ms: Seq<Mesh>, j: int)
    requires
        0 <= j <= ms.len(),
    ensures
        model_vertices(ms.take(j)).len() <= model_vertices(ms).len(),
        model_indices(ms.take(j)).len() <= model_indices(ms).len(),
    decreases ms.len(),
{
    if j == ms.len() {
        assert(ms.take(j) =~= ms);
    } else {
        assert(ms.drop_last().take(j) =~= ms.take(j));
        lemma_model_prefix_len(ms.drop_last(), j);
    }
}

/// Number of vertices, or with `of_indices` of indices, the meshes hold.
pub open spec fn model_count(ms: Seq<Mesh>, of_indices: bool) -> int {
    if of_indices {
        model_indices(ms).len() as int
    } else {
        model_vertices(ms).len() as int
    }
}

/// Decides whether the meshes together hold at most `limit` vertices, or
/// with `of_indices` at most `limit` indices.
fn count_within(ms: &Vec<Mesh>, of_indices: bool, limit: u64) -> (r: bool)
    ensures
        r == (model_count(ms@, of_indices) <= limit),
{
    let mut total: u64 = 0;
    let mut i: usize = 0;
    while i < ms.len()
        invariant
            i <= ms@.len(),
            total == model_count(ms@.take(i as int), of_indices),
            total <= limit,
        decreases ms@.len() - i,
    {
        let n = if of_indices {
            ms[i].indices.len() as u64
        } else {
            ms[i].vertices.len() as u64
        };
        proof {
            lemma_model_step(ms@, i as int);
            lemma_model_prefix_len(ms@, i + 1);
        }
        if n > limit - total {
            return false;
        }
        total = total + n;
        i = i + 1;
    }
    assert(ms@.take(i as int) =~= ms@);
    true
}

/// Appends a copy of every element of `src`.
fn extend_copied<T: Copy>(dst: &mut Vec<T>, src: &Vec<T>)
    ensures
        final(dst)@ == old(dst)@ + src@,
{
    let ghost start = dst@;
    let mut i: usize = 0;
    while i < src.len()
        invariant
            i <= src@.len(),
            dst@ == start + src@.take(i as int),
        decreases src@.len() - i,
    {
        dst.push(src[i]);
        i = i + 1;
        assert(dst@ =~= start + src@.take(i as int));
    }
    assert(src@.take(i as int) =~= src@);
}

/// Everything one frame uploads and records: the used prefix of each
/// buffer, and the render pass over the staged batches.
pub struct FramePlan {
    pub vertex_bytes: Vec<u8>,
    pub index_bytes: Vec<u8>,
    pub uniform_bytes: Vec<u8>,
    pub commands: Vec<RenderCommand>,
}

impl FrameStaging {
    pub open spec fn wf(&self) -> bool {
        self@.wf()
    }

    /// An empty frame staged against the given buffer sizes, or `None` when
    /// they are not valid limits.
    pub fn with_limits(
        vertex_capacity: u64,
        index_capacity: u64,
        uniform_capacity: u64,
        alignment: u64,
    ) -> (r: Option<FrameStaging>)
        ensures
            r is Some <==> valid_limits(
                vertex_capacity as int,
                index_capacity as int,
                uniform_capacity as int,
                alignment as int,
            ),
            r matches Some(f) ==> {
                &&& f.wf()
                &&& f@.is_empty()
                &&& f@.vertex_capacity == vertex_capacity
                &&& f@.index_capacity == index_capacity
                &&& f@.uniform_capacity == uniform_capacity
                &&& f@.alignment == alignment
            },
    {
        if vertex_capacity > 0xffff_ffffu64 || index_capacity > 0xffff_ffffu64 {
            return None;
        }
        if alignment < LOCALS_SIZE || !is_power_of_two(alignment) {
            return None;
        }
        if uniform_capacity > 0x1_0000_0000u64 / alignment {
            proof {
                lemma_mul_le_iff_le_div(
                    uniform_capacity as int,
                    alignment as int,
                    0x1_0000_0000int,
                );
                assert(uniform_capacity * alignment == alignment * uniform_capacity)
                    by (nonlinear_arith);
            }
            return None;
        }
        proof {
            lemma_mul_le_iff_le_div(uniform_capacity as int, alignment as int, 0x1_0000_0000int);
            assert(uniform_capacity * alignment == alignment * uniform_capacity)
                by (nonlinear_arith);
        }
        let f = FrameStaging {
            vertex_capacity,
            index_capacity,
            uniform_capacity,
            alignment,
            vertex_data: Vec::new(),
            index_data: Vec::new(),
            uniform_data: Vec::new(),
            draw_calls: Vec::new(),
        };
        assert(f@.batches =~= Seq::<Seq<DrawCall>>::empty());
        Some(f)
    }

    /// An empty frame staged against the renderer's buffer sizes.
    pub fn new() -> (r: FrameStaging)
        ensures
            r.wf(),
            r@.is_empty(),
            r@.vertex_capacity == VERTEX_BUFFER_SIZE,
            r@.index_capacity == INDEX_BUFFER_SIZE,
            r@.uniform_capacity == MAX_UNIFORM_COUNT,
            r@.alignment == UNIFORM_ALIGNMENT,
    {
        assert(is_pow2(256)) by {
            reveal_with_fuel(is_pow2, 10);
        }
        let f = FrameStaging {
            vertex_capacity: VERTEX_BUFFER_SIZE,
            index_capacity: INDEX_BUFFER_SIZE,
            uniform_capacity: MAX_UNIFORM_COUNT,
            alignment: UNIFORM_ALIGNMENT,
            vertex_data: Vec::new(),
            index_data: Vec::new(),
            uniform_data: Vec::new(),
            draw_calls: Vec::new(),
        };
        assert(f@.batches =~= Seq::<Seq<DrawCall>>::empty());
        f
    }

    /// Number of vertices staged this frame.
    pub fn vertex_count(&self) -> (r: usize)
        ensures
            r == self@.vertices.len(),
    {
        self.vertex_data.len()
    }

    /// Number of indices staged this frame.
    pub fn index_count(&self) -> (r: usize)
        ensures
            r == self@.indices.len(),
    {
        self.index_data.len()
    }

    /// Number of per-draw records staged this frame, one per drawn model.
    pub fn uniform_count(&self) -> (r: usize)
        ensures
            r == self@.locals.len(),
    {
        self.uniform_data.len()
    }

    /// Number of batches staged this frame, one per drawn model.
    pub fn batch_count(&self) -> (r: usize)
        ensures
            r == self@.batches.len(),
    {
        self.draw_calls.len()
    }

    /// Stages every mesh of `model` with one per-draw record.
    ///
    /// Each mesh becomes one draw call whose `base_vertex` is the number of
    /// vertices staged before it and whose index range follows the indices
    /// staged before it; the mesh's own indices are kept as they are. The
    /// returned value is the dynamic offset of the record: the number of
    /// models drawn before in this frame times the alignment. When the
    /// vertex, index or uniform buffer would overflow, nothing is staged.
    pub fn draw_model(&mut self, model: &Model, locals: Locals) -> (r: Result<u32, GearError>)
        requires
            old(self).wf(),
        ensures
            final(self).wf(),
            match old(self)@.overflow(model.meshes@) {
                None => {
                    &&& r == Ok::<u32, GearError>(
                        (old(self)@.locals.len() * old(self)@.alignment) as u32,
                    )
                    &&& old(self)@.locals.len() * old(self)@.alignment <= u32::MAX
                    &&& final(self)@ == old(self)@.drawn(model.meshes@, locals)
                },
                Some(kind) => {
                    &&& r == Err::<u32, GearError>(GearError::StagingCapacityExceeded(kind))
                    &&& final(self)@ == old(self)@
                },
            },
    {
        let ms = &model.meshes;
        let ghost v0 = self@.vertices.len() as int;
        let ghost i0 = self@.indices.len() as int;
        let ghost old_view = self@;
        proof {
            lemma_mul_le_iff_le_div(v0, VERTEX_SIZE as int, self.vertex_capacity as int);
            lemma_mul_le_iff_le_div(i0, INDEX_SIZE as int, self.index_capacity as int);
            lemma_mul_le_iff_le_div(
                v0 + model_vertices(ms@).len(),
                VERTEX_SIZE as int,
                self.vertex_capacity as int,
            );
            lemma_mul_le_iff_le_div(
                i0 + model_indices(ms@).len(),
                INDEX_SIZE as int,
                self.index_capacity as int,
            );
        }
        let vertex_room = self.vertex_capacity / VERTEX_SIZE - self.vertex_data.len() as u64;
        if !count_within(ms, false, vertex_room) {
            return Err(GearError::StagingCapacityExceeded(StagingKind::Vertex));
        }
        let index_room = self.index_capacity / INDEX_SIZE - self.index_data.len() as u64;
        if !count_within(ms, true, index_room) {
            return Err(GearError::StagingCapacityExceeded(StagingKind::Index));
        }
        if self.uniform_data.len() as u64 >= self.uniform_capacity {
            return Err(GearError::StagingCapacityExceeded(StagingKind::Uniform));
        }
        let batch = self.uniform_data.len() as u64;
        proof {
            assert(batch < self.uniform_capacity);
            assert(batch * self.alignment < self.uniform_capacity * self.alignment)
                by (nonlinear_arith)
                requires batch < self.uniform_capacity, self.alignment > 0;
        }
        let offset = (batch * self.alignment) as u32;
        let mut calls: Vec<DrawCall> = Vec::new();
        let mut i: usize = 0;
        while i < ms.len()
            invariant
                i <= ms@.len(),
                v0 == old_view.vertices.len(),
                i0 == old_view.indices.len(),
                self.vertex_capacity == old_view.vertex_capacity,
                self.index_capacity == old_view.index_capacity,
                self.uniform_capacity == old_view.uniform_capacity,
                self.alignment == old_view.alignment,
                self.uniform_data@ == old_view.locals,
                self.draw_calls@.map_values(|b: Vec<DrawCall>| b@) == old_view.batches,
                self.vertex_data@ == old_view.vertices + model_vertices(ms@.take(i as int)),
                self.index_data@ == old_view.indices + model_indices(ms@.take(i as int)),
                calls@ == model_calls(ms@.take(i as int), v0, i0),
                v0 + model_vertices(ms@).len() <= self.vertex_capacity / VERTEX_SIZE,
                i0 + model_indices(ms@).len() <= self.index_capacity / INDEX_SIZE,
                self.vertex_capacity <= u32::MAX,
                self.index_capacity <= u32::MAX,
            decreases ms@.len() - i,
        {
            proof {
                lemma_model_step(ms@, i as int);
                lemma_model_prefix_len(ms@, i + 1);
            }
            let mesh = &ms[i];
            proof {
                vstd::arithmetic::div_mod::lemma_div_is_ordered(
                    self.vertex_capacity as int,
                    u32::MAX as int,
                    VERTEX_SIZE as int,
                );
                vstd::arithmetic::div_mod::lemma_div_is_ordered(
                    self.index_capacity as int,
                    u32::MAX as int,
                    INDEX_SIZE as int,
                );
                assert(self.index_data@.len() + mesh.indices@.len() == i0 + model_indices(
                    ms@.take(i + 1),
                ).len());
            }
            let call = DrawCall {
                base_vertex: self.vertex_data.len() as i32,
                index_start: self.index_data.len() as u32,
                index_end: (self.index_data.len() + mesh.indices.len()) as u32,
            };
            calls.push(call);
            proof {
                let prefix = ms@.take(i + 1).drop_last();
                assert(call.base_vertex == (v0 + model_vertices(prefix).len()) as i32);
                assert(call.index_start == (i0 + model_indices(prefix).len()) as u32);
                assert(calls@ =~= model_calls(ms@.take(i + 1), v0, i0));
            }
            extend_copied(&mut self.vertex_data, &mesh.vertices);
            extend_copied(&mut self.index_data, &mesh.indices);
            i = i + 1;
            proof {
                assert(self.vertex_data@ =~= old_view.vertices + model_vertices(ms@.take(i as int)));
                assert(self.index_data@ =~= old_view.indices + model_indices(ms@.take(i as int)));
            }
        }
        assert(ms@.take(i as int) =~= ms@);
        self.uniform_data.push(locals);
        self.draw_calls.push(calls);
        proof {
            assert(self.draw_calls@.map_values(|b: Vec<DrawCall>| b@) =~= old_view.batches.push(
                calls@,
            ));
            let old_flat = flat_calls(old_view.batches);
            assert(self@.batches.drop_last() =~= old_view.batches);
            assert(flat_calls(self@.batches) == old_flat + calls@);
            lemma_model_calls_ordered(ms@, v0, i0);
            lemma_ordered_concat(
                old_flat,
                calls@,
                0,
                i0,
                self@.indices.len() as int,
                0,
                v0,
                self@.vertices.len() as int,
            );
            assert(self@ == old_view.drawn(ms@, locals));
        }
        Ok(offset)
    }

    /// The render pass over the staged batches.
    fn build_commands(&self) -> (r: Vec<RenderCommand>)
        requires
            self.wf(),
        ensures
            r@ == batch_commands(self@.batches, self@.alignment),
    {
        let ghost batches = self@.batches;
        let ghost a = self@.alignment;
        let mut cmds: Vec<RenderCommand> = Vec::new();
        let mut k: usize = 0;
        while k < self.draw_calls.len()
            invariant
                self.wf(),
                batches == self@.batches,
                a == self.alignment,
                batches.len() == self.draw_calls@.len(),
                k <= batches.len(),
                cmds@ == batch_commands(batches.take(k as int), a),
            decreases batches.len() - k,
        {
            proof {
                assert(k < self.uniform_capacity);
                assert(k * self.alignment < self.uniform_capacity * self.alignment)
                    by (nonlinear_arith)
                    requires k < self.uniform_capacity, self.alignment > 0;
            }
            let offset = (k as u64 * self.alignment) as u32;
            cmds.push(RenderCommand::BindUniforms { offset });
            let ghost base = cmds@;
            let batch = &self.draw_calls[k];
            assert(batch@ == batches[k as int]);
            let mut j: usize = 0;
            while j < batch.len()
                invariant
                    j <= batch@.len(),
                    cmds@ == base + batch@.take(j as int).map_values(
                        |c: DrawCall| RenderCommand::DrawIndexed(c),
                    ),
                decreases batch@.len() - j,
            {
                cmds.push(RenderCommand::DrawIndexed(batch[j]));
                j = j + 1;
                assert(cmds@ =~= base + batch@.take(j as int).map_values(
                    |c: DrawCall| RenderCommand::DrawIndexed(c),
                ));
            }
            proof {
                assert(batch@.take(j as int) =~= batch@);
                assert(batches.take(k + 1).drop_last() =~= batches.take(k as int));
                assert(batches.take(k + 1).last() == batch@);
                assert(cmds@ =~= batch_commands(batches.take(k + 1), a));
            }
            k = k + 1;
        }
        assert(batches.take(k as int) =~= batches);
        cmds
    }

    /// Empties every staging array, keeping the capacities.
    fn clear(&mut self)
        requires
            old(self).wf(),
        ensures
            final(self).wf(),
            final(self)@ == old(self)@.cleared(),
    {
        self.vertex_data.clear();
        self.index_data.clear();
        self.uniform_data.clear();
        self.draw_calls.clear();
        assert(self@.batches =~= Seq::<Seq<DrawCall>>::empty());
        assert(self@ =~= old(self)@.cleared());
    }

    /// Ends the frame once acquisition has settled.
    ///
    /// With a frame to render into, returns what to upload, exactly the
    /// staged bytes of each buffer, and the render pass to record. When no
    /// frame could be acquired, the frame's draws are discarded and the
    /// swapchain is reported unavailable. Either way nothing stays staged.
    pub fn end_frame(&mut self, phase: SubmitPhase) -> (r: Result<FramePlan, GearError>)
        requires
            old(self).wf(),
            phase == SubmitPhase::Render || phase == SubmitPhase::Unavailable,
        ensures
            final(self).wf(),
            final(self)@ == old(self)@.cleared(),
            phase == SubmitPhase::Unavailable ==> r == Err::<FramePlan, GearError>(
                GearError::SwapchainUnavailable,
            ),
            phase == SubmitPhase::Render ==> (r matches Ok(plan) && {
                &&& plan.vertex_bytes@ == vertices_bytes(old(self)@.vertices)
                &&& plan.index_bytes@ == words_bytes(old(self)@.indices)
                &&& plan.uniform_bytes@ == records_bytes(old(self)@.locals, old(self)@.alignment)
                &&& plan.commands@ == batch_commands(old(self)@.batches, old(self)@.alignment)
            }),
    {
        if phase == SubmitPhase::Unavailable {
            self.clear();
            return Err(GearError::SwapchainUnavailable);
        }
        let plan = FramePlan {
            vertex_bytes: encode_vertices(&self.vertex_data),
            index_bytes: encode_indices(&self.index_data),
            uniform_bytes: encode_records(&self.uniform_data, self.alignment),
            commands: self.build_commands(),
        };
        self.clear();
        Ok(plan)
    }
}

} // verus!
