use postpass::node::{
    bind_group_entries, run_frame, run_view, BindGroup, BindGroupEntry, DrawCommand,
    PostProcessWrite, ResourceBinding, RunOutcome, ViewInput,
};

fn full_view(source: u64, destination: u64, uniform: u64) -> ViewInput {
    ViewInput {
        target: Some(PostProcessWrite {
            source,
            destination,
        }),
        uniform: Some(uniform),
    }
}

#[test]
fn pipeline_not_ready_skips_and_succeeds() {
    let view = full_view(10, 11, 12);
    let outcome = run_view(false, 5, &view);
    assert_eq!(outcome, RunOutcome::Skipped);
}

#[test]
fn pipeline_not_ready_whole_frame_draws_nothing() {
    let views = vec![full_view(1, 2, 3), full_view(4, 5, 6), full_view(7, 8, 9)];
    let outcomes = run_frame(false, 5, &views);
    assert_eq!(outcomes.len(), 3);
    assert!(outcomes.iter().all(|o| matches!(o, RunOutcome::Skipped)));
}

#[test]
fn missing_uniform_skips() {
    let view = ViewInput {
        target: Some(PostProcessWrite {
            source: 10,
            destination: 11,
        }),
        uniform: None,
    };
    let outcome = run_view(true, 5, &view);
    assert_eq!(outcome, RunOutcome::Skipped);
}

#[test]
fn missing_target_skips() {
    let view = ViewInput {
        target: None,
        uniform: Some(12),
    };
    let outcome = run_view(true, 5, &view);
    assert_eq!(outcome, RunOutcome::Skipped);
}

#[test]
fn qualifying_view_gets_exactly_the_one_draw() {
    let view = full_view(10, 11, 12);
    let outcome = run_view(true, 5, &view);
    assert_eq!(
        outcome,
        RunOutcome::Drew(DrawCommand {
            bind_group: BindGroup {
                texture_view: 10,
                sampler: 5,
                uniform: 12,
            },
            target: 11,
            vertex_start: 0,
            vertex_end: 3,
            instance_start: 0,
            instance_end: 1,
        })
    );
}

#[test]
fn one_draw_per_qualifying_view_per_frame() {
    let views = vec![
        full_view(1, 2, 3),
        ViewInput {
            target: Some(PostProcessWrite {
                source: 4,
                destination: 5,
            }),
            uniform: None,
        },
        full_view(7, 8, 9),
    ];
    let outcomes = run_frame(true, 5, &views);
    assert_eq!(outcomes.len(), 3);
    let drawn = outcomes
        .iter()
        .filter(|o| matches!(o, RunOutcome::Drew(_)))
        .count();
    assert_eq!(drawn, 2);
    assert!(matches!(outcomes[0], RunOutcome::Drew(_)));
    assert_eq!(outcomes[1], RunOutcome::Skipped);
    assert!(matches!(outcomes[2], RunOutcome::Drew(_)));
}

#[test]
fn draw_samples_current_frame_source_not_stale() {
    // The host swaps a view target's two buffers after each consuming pass:
    // what the first frame wrote becomes the second frame's source.
    let first_frame = full_view(100, 200, 12);
    let second_frame = full_view(200, 100, 12);

    let first = run_view(true, 5, &first_frame);
    let second = run_view(true, 5, &second_frame);

    match (first, second) {
        (RunOutcome::Drew(a), RunOutcome::Drew(b)) => {
            assert_eq!(a.bind_group.texture_view, 100);
            assert_eq!(a.target, 200);
            assert_eq!(b.bind_group.texture_view, 200);
            assert_eq!(b.target, 100);
            // The second draw reads the current source, not the stale one.
            assert_ne!(b.bind_group.texture_view, a.bind_group.texture_view);
        }
        _ => panic!("both frames should draw"),
    }
}

#[test]
fn bind_group_entries_wire_slots_zero_one_two() {
    let bg = BindGroup {
        texture_view: 10,
        sampler: 5,
        uniform: 12,
    };
    let entries = bind_group_entries(&bg);
    assert_eq!(entries.len(), 3);
    assert_eq!(
        entries[0],
        BindGroupEntry {
            binding: 0,
            resource: ResourceBinding::TextureView(10),
        }
    );
    assert_eq!(
        entries[1],
        BindGroupEntry {
            binding: 1,
            resource: ResourceBinding::Sampler(5),
        }
    );
    assert_eq!(
        entries[2],
        BindGroupEntry {
            binding: 2,
            resource: ResourceBinding::Buffer(12),
        }
    );
}
