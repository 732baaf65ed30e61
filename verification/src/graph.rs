//! Placement of the node in the host engine's render graph.
//!
//! The node always runs inside the 3D core graph, between two named stages.
//! A static flag, fixed at startup, selects one of two placements: before the
//! main pass (between the depth prepass and the start of the main pass) or
//! after it (between the end of the main pass and its post-processing stage).
//! The placement is the flag's only effect; the node's per-frame behaviour
//! never reads it.

use vstd::prelude::*;

verus! {

/// A named stage of the host's 3D render graph that can bound this node.
#[derive(Clone, Copy, PartialEq, Eq, Structural, Debug)]
pub enum Stage {
    /// The scene depth/normal prepass.
    Prepass,
    /// The start of the main opaque pass.
    StartMainPass,
    /// The end of the main opaque pass.
    EndMainPass,
    /// The stage that closes the main pass's post-processing.
    EndMainPassPostProcessing,
}

/// The edges that tie the node into the graph: it runs after `before` and
/// before `after`.
#[derive(Clone, Copy, PartialEq, Eq, Structural, Debug)]
pub struct EdgeChain {
    /// The stage the node is ordered after.
    pub before: Stage,
    /// The stage the node is ordered before.
    pub after: Stage,
}

/// The name under which the node registers itself in the graph.
pub fn node_name() -> (r: &'static str)
    ensures
        r@ == "blend_node"@,
{
    "blend_node"
}

/// The name of the graph the node is added to.
pub fn graph_name() -> (r: &'static str)
    ensures
        r@ == "core_3d"@,
{
    "core_3d"
}

/// The host engine's name for a stage.
pub fn stage_name(stage: Stage) -> (r: &'static str)
    ensures
        stage is Prepass ==> r@ == "prepass"@,
        stage is StartMainPass ==> r@ == "start_main_pass"@,
        stage is EndMainPass ==> r@ == "end_main_pass"@,
        stage is EndMainPassPostProcessing ==> r@ == "end_main_pass_post_processing"@,
{
    match stage {
        Stage::Prepass => "prepass",
        Stage::StartMainPass => "start_main_pass",
        Stage::EndMainPass => "end_main_pass",
        Stage::EndMainPassPostProcessing => "end_main_pass_post_processing",
    }
}

/// The placement selected by the static ordering flag.
pub open spec fn edge_chain_spec(before_main_pass: bool) -> EdgeChain {
    if before_main_pass {
        EdgeChain { before: Stage::Prepass, after: Stage::StartMainPass }
    } else {
        EdgeChain { before: Stage::EndMainPass, after: Stage::EndMainPassPostProcessing }
    }
}

/// Selects the two stages that bound the node.
///
/// With the flag set the node runs between the prepass and the start of the
/// main pass; with it clear, between the end of the main pass and its
/// post-processing stage.  Nothing else about the node depends on the flag.
pub fn edge_chain(before_main_pass: bool) -> (r: EdgeChain)
    ensures
        r == edge_chain_spec(before_main_pass),
        before_main_pass ==> r == (EdgeChain {
            before: Stage::Prepass,
            after: Stage::StartMainPass,
        }),
        !before_main_pass ==> r == (EdgeChain {
            before: Stage::EndMainPass,
            after: Stage::EndMainPassPostProcessing,
        }),
{
    if before_main_pass {
        EdgeChain { before: Stage::Prepass, after: Stage::StartMainPass }
    } else {
        EdgeChain { before: Stage::EndMainPass, after: Stage::EndMainPassPostProcessing }
    }
}

/// Switching the flag does change the placement: the two selectable edge
/// chains share no stage.  The placement is the flag's only effect — no other
/// function of this crate takes the flag.
pub proof fn lemma_flag_switches_placement()
    ensures
        edge_chain_spec(true).before != edge_chain_spec(false).before,
        edge_chain_spec(true).after != edge_chain_spec(false).after,
{
}

} // verus!
