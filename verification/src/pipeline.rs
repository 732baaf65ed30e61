//! The immutable pipeline bundle built once at startup.
//!
//! The node owns a bind-group layout with three slots (the source texture, a
//! filtering sampler, and the per-view colour uniform), a linear sampler, and
//! the handle of one render pipeline queued for asynchronous compilation.
//! All of it is created before any frame runs and never changes afterwards:
//! [`PipelineState`] has no mutating method.

use vstd::prelude::*;

verus! {

/// Bytes of the per-view uniform: one `vec4<f32>` colour.
pub const SETTINGS_MIN_SIZE: u64 = 16;

/// What a bind-group layout slot accepts.
#[derive(Clone, Copy, PartialEq, Eq, Structural, Debug)]
pub enum BindingKind {
    /// A 2D texture with a filterable float sample type, not multisampled.
    FilterableTexture2d,
    /// A filtering sampler.
    FilteringSampler,
    /// A uniform buffer of at least `min_size` bytes, without dynamic offset.
    UniformBuffer { min_size: u64 },
}

/// One slot of the bind-group layout.
#[derive(Clone, Copy, PartialEq, Eq, Structural, Debug)]
pub struct LayoutEntry {
    /// The shader binding index of the slot.
    pub binding: u32,
    /// What the slot accepts.
    pub kind: BindingKind,
}

/// The layout the node's bind groups follow, in slot order.
pub open spec fn layout_spec() -> Seq<LayoutEntry> {
    seq![
        LayoutEntry { binding: 0, kind: BindingKind::FilterableTexture2d },
        LayoutEntry { binding: 1, kind: BindingKind::FilteringSampler },
        LayoutEntry { binding: 2, kind: BindingKind::UniformBuffer { min_size: SETTINGS_MIN_SIZE as u64 } },
    ]
}

/// Builds the bind-group layout entries: the source texture at slot 0, the
/// sampler at slot 1, and the colour uniform at slot 2.
pub fn layout_entries() -> (r: Vec<LayoutEntry>)
    ensures
        r@ == layout_spec(),
        r@.len() == 3,
        forall|i: int| 0 <= i < 3 ==> (#[trigger] r@[i]).binding == i,
{
    let mut r: Vec<LayoutEntry> = Vec::new();
    r.push(LayoutEntry { binding: 0, kind: BindingKind::FilterableTexture2d });
    r.push(LayoutEntry { binding: 1, kind: BindingKind::FilteringSampler });
    r.push(LayoutEntry { binding: 2, kind: BindingKind::UniformBuffer { min_size: SETTINGS_MIN_SIZE } });
    proof {
        assert(r@ =~= layout_spec());
    }
    r
}

/// The entry point of the fragment stage; the vertex stage is the host's
/// full-screen-triangle shader.
pub fn fragment_entry_point() -> (r: &'static str)
    ensures
        r@ == "fragment"@,
{
    "fragment"
}

/// A sampler filter mode.
#[derive(Clone, Copy, PartialEq, Eq, Structural, Debug)]
pub enum FilterMode {
    Nearest,
    Linear,
}

/// How the node's sampler filters when minifying and magnifying.
#[derive(Clone, Copy, PartialEq, Eq, Structural, Debug)]
pub struct SamplerConfig {
    pub min_filter: FilterMode,
    pub mag_filter: FilterMode,
}

/// The sampler the node creates once: linear in both directions.
pub fn sampler_config() -> (r: SamplerConfig)
    ensures
        r.min_filter is Linear,
        r.mag_filter is Linear,
{
    SamplerConfig { min_filter: FilterMode::Linear, mag_filter: FilterMode::Linear }
}

/// The bundle created once at startup: the layout, the sampler the host made
/// from [`sampler_config`], and the cache handle of the queued pipeline.
/// Samplers and pipelines are host resources; they are carried as opaque ids.
pub struct PipelineState {
    /// The bind-group layout, in slot order.
    pub layout: Vec<LayoutEntry>,
    /// The id of the sampler bound at slot 1 of every frame's bind group.
    pub sampler: u64,
    /// The pipeline-cache handle used to ask whether compilation finished.
    pub pipeline_id: u64,
}

impl PipelineState {
    /// The layout always is the canonical three-slot layout.
    pub open spec fn wf(self) -> bool {
        self.layout@ == layout_spec()
    }

    /// Builds the startup bundle around the host's sampler and cache handle.
    pub fn new(sampler: u64, pipeline_id: u64) -> (r: PipelineState)
        ensures
            r.wf(),
            r.sampler == sampler,
            r.pipeline_id == pipeline_id,
    {
        PipelineState { layout: layout_entries(), sampler, pipeline_id }
    }
}

} // verus!
