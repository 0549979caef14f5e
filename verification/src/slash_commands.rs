//! What the slash command menu searches.
use vstd::prelude::*;
use vstd::string::*;

verus! {

/// Which kind of result a query is for.
#[derive(Debug, Clone, Copy, PartialEq, Eq, Structural)]
pub enum QueryFilter {
    StaticSlashCommands,
}

/// A query of the menu.
#[derive(Debug, Clone, PartialEq, Eq)]
pub struct Query {
    pub text: String,
    /// No filter occurs twice.
    pub filters: Vec<QueryFilter>,
}

impl Query {
    /// Whether the query's filters hold one of `filters`.
    pub open spec fn meets(self, filters: Seq<QueryFilter>) -> bool {
        exists|i: int, j: int|
            0 <= i < self.filters@.len() && 0 <= j < filters.len() && #[trigger] self.filters@[i]
                == #[trigger] filters[j]
    }
}

/// The query of the slash command menu for a text.
pub fn slash_command_query(text: &str) -> (r: Query)
    ensures
        r.text@ == text@,
        r.filters@ == seq![QueryFilter::StaticSlashCommands],
{
    let filters: Vec<QueryFilter> = vec![QueryFilter::StaticSlashCommands];
    assert(filters@ =~= seq![QueryFilter::StaticSlashCommands]);
    Query { text: text.to_string(), filters }
}

/// What a source of the menu offers.
#[derive(Debug, Clone, Copy, PartialEq, Eq, Structural)]
pub enum Source {
    SlashCommands,
    SavedPrompts,
    /// What is shown before anything is typed.
    ZeroState { is_cloud_mode_v2: bool },
}

/// How an asynchronous source runs.
#[derive(Debug, Clone, Copy, PartialEq, Eq, Structural)]
pub struct AddAsyncSourceOptions {
    /// Milliseconds to wait for more typing.
    pub debounce_interval_ms: Option<u64>,
    pub run_in_zero_state: bool,
    pub run_when_unfiltered: bool,
}

/// A source with its filters; the options when it is asynchronous.
#[derive(Debug, Clone, PartialEq, Eq)]
pub struct SourcePlan {
    pub source: Source,
    pub filters: Vec<QueryFilter>,
    pub async_options: Option<AddAsyncSourceOptions>,
}

/// How to set up the mixer of the slash command menu: its sources, in order, and the
/// query to run first.
#[derive(Debug, Clone, PartialEq, Eq)]
pub struct SlashCommandMixerPlan {
    pub sources: Vec<SourcePlan>,
    pub first_query: Query,
}

/// The filters that all sources share. Asynchronous sources only run when the query's
/// filters meet their own.
pub open spec fn shared_filters() -> Seq<QueryFilter> {
    seq![QueryFilter::StaticSlashCommands]
}

/// A source under the shared filters.
fn plan_source(source: Source, async_options: Option<AddAsyncSourceOptions>) -> (r: SourcePlan)
    ensures
        r.source == source,
        r.filters@ == shared_filters(),
        r.async_options == async_options,
{
    let filters: Vec<QueryFilter> = vec![QueryFilter::StaticSlashCommands];
    assert(filters@ =~= shared_filters());
    SourcePlan { source, filters, async_options }
}

/// Plans the mixer of the slash command menu: commands, saved prompts and what is shown
/// before anything is typed.
pub fn build_slash_command_mixer(is_cloud_mode_v2: bool) -> (r: SlashCommandMixerPlan)
    ensures
        r.sources@.len() == 3,
        forall|i: int| 0 <= i < 3 ==> (#[trigger] r.sources@[i]).filters@ == shared_filters(),
        r.sources@[0].source == Source::SlashCommands,
        r.sources@[0].async_options is None,
        r.sources@[1].source == Source::SavedPrompts,
        r.sources@[1].async_options == Some(
            AddAsyncSourceOptions {
                debounce_interval_ms: None,
                run_in_zero_state: false,
                run_when_unfiltered: false,
            },
        ),
        r.sources@[2].source == (Source::ZeroState { is_cloud_mode_v2 }),
        r.sources@[2].async_options is None,
        r.first_query.text@ == Seq::<char>::empty(),
        r.first_query.filters@ == seq![QueryFilter::StaticSlashCommands],
{
    let mut sources: Vec<SourcePlan> = Vec::new();
    sources.push(plan_source(Source::SlashCommands, None));
    sources.push(
        plan_source(
            Source::SavedPrompts,
            Some(
                AddAsyncSourceOptions {
                    // Any debounce makes the loading state flicker longer.
                    debounce_interval_ms: None,
                    run_in_zero_state: false,
                    run_when_unfiltered: false,
                },
            ),
        ),
    );
    sources.push(plan_source(Source::ZeroState { is_cloud_mode_v2 }, None));
    proof {
        reveal_strlit("");
    }
    SlashCommandMixerPlan { sources, first_query: slash_command_query("") }
}

/// Every slash command query reaches every source of the menu.
pub proof fn law_queries_reach_every_source(query: Query)
    requires
        query.filters@ == seq![QueryFilter::StaticSlashCommands],
    ensures
        query.meets(shared_filters()),
{
    assert(query.filters@[0] == shared_filters()[0]);
}

/// The sources are found by slash commands and by nothing else.
pub proof fn law_sources_share_the_slash_command_filter(filter: QueryFilter)
    ensures
        shared_filters().contains(filter) <==> filter == QueryFilter::StaticSlashCommands,
        shared_filters().len() == 1,
{
    assert(shared_filters()[0] == QueryFilter::StaticSlashCommands);
}

} // verus!
