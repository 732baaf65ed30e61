use postpass::graph::{edge_chain, graph_name, node_name, stage_name, EdgeChain, Stage};
use postpass::pipeline::{
    fragment_entry_point, layout_entries, sampler_config, BindingKind, FilterMode, LayoutEntry,
    PipelineState, SETTINGS_MIN_SIZE,
};

#[test]
fn flag_set_places_node_before_main_pass() {
    assert_eq!(
        edge_chain(true),
        EdgeChain {
            before: Stage::Prepass,
            after: Stage::StartMainPass,
        }
    );
}

#[test]
fn flag_clear_places_node_after_main_pass() {
    assert_eq!(
        edge_chain(false),
        EdgeChain {
            before: Stage::EndMainPass,
            after: Stage::EndMainPassPostProcessing,
        }
    );
}

#[test]
fn switching_the_flag_changes_both_bounding_stages() {
    let before_main = edge_chain(true);
    let after_main = edge_chain(false);
    assert_ne!(before_main.before, after_main.before);
    assert_ne!(before_main.after, after_main.after);
}

#[test]
fn graph_names_match_the_host_stages() {
    assert_eq!(graph_name(), "core_3d");
    assert_eq!(node_name(), "blend_node");
    assert_eq!(stage_name(Stage::Prepass), "prepass");
    assert_eq!(stage_name(Stage::StartMainPass), "start_main_pass");
    assert_eq!(stage_name(Stage::EndMainPass), "end_main_pass");
    assert_eq!(
        stage_name(Stage::EndMainPassPostProcessing),
        "end_main_pass_post_processing"
    );
}

#[test]
fn layout_has_texture_sampler_uniform_in_order() {
    let entries = layout_entries();
    assert_eq!(entries.len(), 3);
    assert_eq!(
        entries[0],
        LayoutEntry {
            binding: 0,
            kind: BindingKind::FilterableTexture2d,
        }
    );
    assert_eq!(
        entries[1],
        LayoutEntry {
            binding: 1,
            kind: BindingKind::FilteringSampler,
        }
    );
    assert_eq!(
        entries[2],
        LayoutEntry {
            binding: 2,
            kind: BindingKind::UniformBuffer { min_size: 16 },
        }
    );
}

#[test]
fn uniform_holds_one_color_vec4() {
    assert_eq!(SETTINGS_MIN_SIZE, 16);
}

#[test]
fn fragment_stage_entry_point() {
    assert_eq!(fragment_entry_point(), "fragment");
}

#[test]
fn sampler_filters_linearly() {
    let cfg = sampler_config();
    assert_eq!(cfg.min_filter, FilterMode::Linear);
    assert_eq!(cfg.mag_filter, FilterMode::Linear);
}

#[test]
fn pipeline_state_keeps_what_it_was_built_from() {
    let state = PipelineState::new(5, 42);
    assert_eq!(state.sampler, 5);
    assert_eq!(state.pipeline_id, 42);
    assert_eq!(state.layout, layout_entries());
}
