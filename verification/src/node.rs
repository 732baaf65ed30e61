//! The node's per-frame, per-view execution logic.
//!
//! Each frame the graph invokes the node once per view.  The node draws only
//! when everything it needs is at hand: the view's colour target, the
//! compiled pipeline, and the view's colour uniform.  When any of the three
//! is missing it skips the view silently — the host re-invokes it next frame —
//! and it never fails of itself: every invocation yields an outcome, never an
//! error.  When it draws, it issues exactly one draw call: a full-screen
//! triangle (vertices 0..3, one instance 0..1) whose bind group wires the
//! current frame's source texture, the startup sampler, and the uniform to
//! slots 0, 1 and 2, writing to the current frame's destination texture.
//!
//! Textures, samplers and buffers are host resources; they appear here as the
//! opaque ids the host assigns them.

use vstd::prelude::*;

use crate::pipeline::{BindingKind, LayoutEntry, PipelineState};

verus! {

/// The two colour buffers of a view's target for the current frame: the node
/// samples `source` and writes `destination`; the host swaps them afterwards
/// for the next consumer of the graph.
#[derive(Clone, Copy, PartialEq, Eq, Structural, Debug)]
pub struct PostProcessWrite {
    /// Texture view holding the frame rendered so far; sampled at slot 0.
    pub source: u64,
    /// Texture view the pass writes; the frame the next consumer reads.
    pub destination: u64,
}

/// What one view offers the node on one frame.
#[derive(Clone, Copy, PartialEq, Eq, Structural, Debug)]
pub struct ViewInput {
    /// The view's colour target, if the view still exists in the render
    /// world and has one.
    pub target: Option<PostProcessWrite>,
    /// The buffer binding of the view's extracted colour uniform, if the
    /// extraction has run for this frame.
    pub uniform: Option<u64>,
}

/// The resources a draw's bind group wires to the shader, by slot.
#[derive(Clone, Copy, PartialEq, Eq, Structural, Debug)]
pub struct BindGroup {
    /// Slot 0: the texture view sampled by the fragment shader.
    pub texture_view: u64,
    /// Slot 1: the sampler.
    pub sampler: u64,
    /// Slot 2: the uniform buffer holding the view's colour.
    pub uniform: u64,
}

/// One resource as a bind-group entry carries it.
#[derive(Clone, Copy, PartialEq, Eq, Structural, Debug)]
pub enum ResourceBinding {
    TextureView(u64),
    Sampler(u64),
    Buffer(u64),
}

/// One entry of a bind group: a resource wired to a shader binding index.
#[derive(Clone, Copy, PartialEq, Eq, Structural, Debug)]
pub struct BindGroupEntry {
    pub binding: u32,
    pub resource: ResourceBinding,
}

/// The one draw call a qualifying view receives.
#[derive(Clone, Copy, PartialEq, Eq, Structural, Debug)]
pub struct DrawCommand {
    /// The resources bound for the draw.
    pub bind_group: BindGroup,
    /// The texture view the render pass writes: the target's destination.
    pub target: u64,
    /// First vertex of the draw; always 0.
    pub vertex_start: u32,
    /// One past the last vertex; always 3: one full-screen triangle.
    pub vertex_end: u32,
    /// First instance; always 0.
    pub instance_start: u32,
    /// One past the last instance; always 1.
    pub instance_end: u32,
}

/// What the node did for one view on one frame.  There is no error variant:
/// the node has no fallible branch of its own.
#[derive(Clone, Copy, PartialEq, Eq, Structural, Debug)]
pub enum RunOutcome {
    /// The pipeline was still compiling, the view had no target, or its
    /// uniform was not yet extracted; nothing was drawn.
    Skipped,
    /// Exactly this draw call was issued.
    Drew(DrawCommand),
}

/// Whether a view receives a draw this frame: the pipeline has compiled and
/// the view brings both its colour target and its colour uniform.
pub open spec fn qualifies(pipeline_ready: bool, view: ViewInput) -> bool {
    &&& pipeline_ready
    &&& view.target is Some
    &&& view.uniform is Some
}

/// The draw call a qualifying view receives, given the startup sampler.
pub open spec fn draw_command_spec(sampler: u64, target: PostProcessWrite, uniform: u64) -> DrawCommand {
    DrawCommand {
        bind_group: BindGroup { texture_view: target.source, sampler, uniform },
        target: target.destination,
        vertex_start: 0,
        vertex_end: 3,
        instance_start: 0,
        instance_end: 1,
    }
}

/// The node's whole per-view behaviour: skip unless the view qualifies, else
/// the one draw call.
pub open spec fn run_view_spec(pipeline_ready: bool, sampler: u64, view: ViewInput) -> RunOutcome {
    if qualifies(pipeline_ready, view) {
        RunOutcome::Drew(draw_command_spec(sampler, view.target->0, view.uniform->0))
    } else {
        RunOutcome::Skipped
    }
}

/// Executes the node for one view of one frame.
///
/// `pipeline_ready` is the pipeline cache's answer for the startup pipeline
/// handle; `sampler` is the sampler of the startup bundle; `view` is what the
/// render world holds for the view this frame.  The outcome is total — the
/// node never errors of itself:
/// while the pipeline is still compiling nothing is drawn; a view without a
/// uniform binding (or without a target) is skipped; and a qualifying view
/// gets exactly one draw, vertices 0..3 and instances 0..1, its bind group
/// sampling this frame's source texture and writing this frame's destination.
pub fn run_view(pipeline_ready: bool, sampler: u64, view: &ViewInput) -> (r: RunOutcome)
    ensures
        r == run_view_spec(pipeline_ready, sampler, *view),
        !pipeline_ready ==> r is Skipped,
        view.uniform is None ==> r is Skipped,
        view.target is None ==> r is Skipped,
        qualifies(pipeline_ready, *view) ==> r == RunOutcome::Drew(
            draw_command_spec(sampler, view.target->0, view.uniform->0),
        ),
        r matches RunOutcome::Drew(d) ==> {
            &&& d.bind_group.texture_view == view.target->0.source
            &&& d.bind_group.sampler == sampler
            &&& d.bind_group.uniform == view.uniform->0
            &&& d.target == view.target->0.destination
            &&& d.vertex_start == 0 && d.vertex_end == 3
            &&& d.instance_start == 0 && d.instance_end == 1
        },
{
    if !pipeline_ready {
        return RunOutcome::Skipped;
    }
    let target = match view.target {
        Some(t) => t,
        None => {
            return RunOutcome::Skipped;
        },
    };
    let uniform = match view.uniform {
        Some(u) => u,
        None => {
            return RunOutcome::Skipped;
        },
    };
    RunOutcome::Drew(DrawCommand {
        bind_group: BindGroup { texture_view: target.source, sampler, uniform },
        target: target.destination,
        vertex_start: 0,
        vertex_end: 3,
        instance_start: 0,
        instance_end: 1,
    })
}

/// The entries of a draw's bind group, in slot order 0, 1, 2.
pub open spec fn bind_group_entries_spec(bg: BindGroup) -> Seq<BindGroupEntry> {
    seq![
        BindGroupEntry { binding: 0, resource: ResourceBinding::TextureView(bg.texture_view) },
        BindGroupEntry { binding: 1, resource: ResourceBinding::Sampler(bg.sampler) },
        BindGroupEntry { binding: 2, resource: ResourceBinding::Buffer(bg.uniform) },
    ]
}

/// Lays a bind group out as the entries handed to the host: the texture view
/// at binding 0, the sampler at binding 1, the uniform buffer at binding 2.
pub fn bind_group_entries(bg: &BindGroup) -> (r: Vec<BindGroupEntry>)
    ensures
        r@ == bind_group_entries_spec(*bg),
        r@.len() == 3,
{
    let mut r: Vec<BindGroupEntry> = Vec::new();
    r.push(BindGroupEntry { binding: 0, resource: ResourceBinding::TextureView(bg.texture_view) });
    r.push(BindGroupEntry { binding: 1, resource: ResourceBinding::Sampler(bg.sampler) });
    r.push(BindGroupEntry { binding: 2, resource: ResourceBinding::Buffer(bg.uniform) });
    proof {
        assert(r@ =~= bind_group_entries_spec(*bg));
    }
    r
}

/// Whether a resource is of the kind a layout slot accepts.
pub open spec fn resource_fits(resource: ResourceBinding, kind: BindingKind) -> bool {
    match kind {
        BindingKind::FilterableTexture2d => resource is TextureView,
        BindingKind::FilteringSampler => resource is Sampler,
        BindingKind::UniformBuffer { .. } => resource is Buffer,
    }
}

/// Every bind group the node builds conforms to the startup layout: same
/// number of entries, and at each slot the entry's binding index and resource
/// kind are the layout's.
pub proof fn lemma_bind_group_matches_layout(bg: BindGroup)
    ensures
        bind_group_entries_spec(bg).len() == crate::pipeline::layout_spec().len(),
        forall|i: int| 0 <= i < crate::pipeline::layout_spec().len() ==> {
            &&& (#[trigger] bind_group_entries_spec(bg)[i]).binding
                == crate::pipeline::layout_spec()[i].binding
            &&& resource_fits(
                bind_group_entries_spec(bg)[i].resource,
                crate::pipeline::layout_spec()[i].kind,
            )
        },
{
}

/// Executes the node for every view of one frame, in order: each view gets
/// exactly one outcome, the one [`run_view`] gives it.
pub fn run_frame(pipeline_ready: bool, sampler: u64, views: &Vec<ViewInput>) -> (r: Vec<RunOutcome>)
    ensures
        r@.len() == views@.len(),
        forall|i: int| 0 <= i < views@.len() ==> #[trigger] r@[i] == run_view_spec(
            pipeline_ready,
            sampler,
            views@[i],
        ),
{
    let mut r: Vec<RunOutcome> = Vec::new();
    let mut i: usize = 0;
    while i < views.len()
        invariant
            i <= views@.len(),
            r@.len() == i,
            forall|j: int| 0 <= j < i ==> #[trigger] r@[j] == run_view_spec(
                pipeline_ready,
                sampler,
                views@[j],
            ),
        decreases views@.len() - i,
    {
        let outcome = run_view(pipeline_ready, sampler, &views[i]);
        r.push(outcome);
        i = i + 1;
    }
    r
}

/// How many outcomes of a frame drew.
pub open spec fn drawn_count(outcomes: Seq<RunOutcome>) -> nat
    decreases outcomes.len(),
{
    if outcomes.len() == 0 {
        0
    } else {
        drawn_count(outcomes.drop_last()) + if outcomes.last() is Drew {
            1nat
        } else {
            0nat
        }
    }
}

/// How many views of a frame qualify for a draw.
pub open spec fn qualifying_count(pipeline_ready: bool, views: Seq<ViewInput>) -> nat
    decreases views.len(),
{
    if views.len() == 0 {
        0
    } else {
        qualifying_count(pipeline_ready, views.drop_last()) + if qualifies(
            pipeline_ready,
            views.last(),
        ) {
            1nat
        } else {
            0nat
        }
    }
}

/// One draw per qualifying view, and none besides: over a whole frame, the
/// outcomes of [`run_frame`] hold exactly as many draw calls as the frame has
/// qualifying views.  In particular, while the pipeline is not yet compiled
/// no view draws at all.
pub proof fn lemma_one_draw_per_qualifying_view(
    pipeline_ready: bool,
    sampler: u64,
    views: Seq<ViewInput>,
    outcomes: Seq<RunOutcome>,
)
    requires
        outcomes.len() == views.len(),
        forall|i: int| 0 <= i < views.len() ==> #[trigger] outcomes[i] == run_view_spec(
            pipeline_ready,
            sampler,
            views[i],
        ),
    ensures
        drawn_count(outcomes) == qualifying_count(pipeline_ready, views),
        !pipeline_ready ==> drawn_count(outcomes) == 0,
    decreases views.len(),
{
    if views.len() > 0 {
        assert(outcomes.last() == run_view_spec(pipeline_ready, sampler, views.last()));
        lemma_one_draw_per_qualifying_view(
            pipeline_ready,
            sampler,
            views.drop_last(),
            outcomes.drop_last(),
        );
    }
    if !pipeline_ready {
        lemma_no_pipeline_no_draws(pipeline_ready, views);
    }
}

/// While the pipeline is missing no view qualifies.
proof fn lemma_no_pipeline_no_draws(pipeline_ready: bool, views: Seq<ViewInput>)
    requires
        !pipeline_ready,
    ensures
        qualifying_count(pipeline_ready, views) == 0,
    decreases views.len(),
{
    if views.len() > 0 {
        lemma_no_pipeline_no_draws(pipeline_ready, views.drop_last());
    }
}

} // verus!
