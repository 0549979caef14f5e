use warp_helm::slash_commands::{
    build_slash_command_mixer, slash_command_query, AddAsyncSourceOptions, QueryFilter, Source,
};

#[test]
fn query_has_the_slash_command_filter() {
    let query = slash_command_query("/he");
    assert_eq!(query.text, "/he");
    assert_eq!(query.filters, vec![QueryFilter::StaticSlashCommands]);
}

#[test]
fn mixer_has_three_sources_that_every_query_reaches() {
    let plan = build_slash_command_mixer(true);
    let sources: Vec<Source> = plan.sources.iter().map(|s| s.source).collect();
    assert_eq!(
        sources,
        vec![
            Source::SlashCommands,
            Source::SavedPrompts,
            Source::ZeroState { is_cloud_mode_v2: true },
        ]
    );
    for source in &plan.sources {
        assert_eq!(source.filters, slash_command_query("x").filters);
    }
    assert_eq!(plan.sources[0].async_options, None);
    assert_eq!(
        plan.sources[1].async_options,
        Some(AddAsyncSourceOptions {
            debounce_interval_ms: None,
            run_in_zero_state: false,
            run_when_unfiltered: false,
        })
    );
    assert_eq!(plan.sources[2].async_options, None);
    assert_eq!(plan.first_query, slash_command_query(""));
    assert_eq!(
        build_slash_command_mixer(false).sources[2].source,
        Source::ZeroState { is_cloud_mode_v2: false }
    );
}
