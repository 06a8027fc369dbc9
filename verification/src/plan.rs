//! The scan plan: the leaf operator that turns a scan request into one
//! stream per file group.

use vstd::prelude::*;
use datafusion::error::DataFusionError;
use datafusion::physical_optimizer::pruning::PruningPredicate;
use crate::file::FilePartition;
use crate::pruning::{trivially_true, PruningPredicateSet};
use crate::stream::{limit_view, OnError, PartitionStream, StreamState};
use crate::text::{debug_file, debug_limit, debug_list, file_text, limit_text, list_text, views};

verus! {

/// An estimate, and how far it can be trusted.
#[derive(Clone, Copy, PartialEq, Eq, Debug, Structural)]
pub enum Precision {
    Exact(usize),
    Inexact(usize),
    Absent,
}

/// Row and byte estimates of a scan, already adjusted to its projection.
#[derive(Clone, Copy, PartialEq, Eq, Debug, Structural)]
pub struct Statistics {
    pub num_rows: Precision,
    pub total_byte_size: Precision,
}

/// The request that a scan is compiled from. It is read, never changed, for
/// as long as the scan lives.
pub struct ScanConfig {
    /// The files to scan: each group is read by one partition, in order.
    pub file_groups: Vec<Vec<FilePartition>>,
    /// Names of the columns of the files, in file order.
    pub file_schema: Vec<String>,
    /// Positions of the columns to read; `None` reads them all.
    pub projection: Option<Vec<usize>>,
    /// Most rows that a partition may emit; `None` sets no limit.
    pub limit: Option<usize>,
    pub statistics: Statistics,
}

/// The positions of `projection` that name a column of a file with `columns`
/// columns, in the order given.
pub open spec fn file_columns(projection: Seq<usize>, columns: nat) -> Seq<usize> {
    projection.filter(|i: usize| i < columns)
}

/// The positions of all the columns of a file with `columns` columns.
pub open spec fn all_columns(columns: nat) -> Seq<usize> {
    Seq::new(columns, |i: int| i as usize)
}

impl ScanConfig {
    /// The columns that the scan reads from its files: the projection cut
    /// down to the columns there are, or every column where none is given.
    pub open spec fn spec_projection(&self) -> Seq<usize> {
        match self.projection {
            Some(projection) => file_columns(projection@, self.file_schema@.len()),
            None => all_columns(self.file_schema@.len()),
        }
    }

    /// Names of the columns that the scan reads, in the order it reads them.
    pub open spec fn spec_projected_schema(&self) -> Seq<String> {
        Seq::new(
            self.spec_projection().len(),
            |k: int| self.file_schema@[self.spec_projection()[k] as int],
        )
    }

    /// The projection cut down to the columns that the files have; `None`
    /// where the scan has no projection.
    pub fn file_column_projection_indices(&self) -> (indices: Option<Vec<usize>>)
        ensures
            self.projection.is_some() == indices.is_some(),
            indices matches Some(found) ==> found@ == file_columns(
                self.projection.unwrap()@,
                self.file_schema@.len(),
            ),
    {
        match &self.projection {
            None => None,
            Some(projection) => {
                let columns = self.file_schema.len();
                let mut found: Vec<usize> = Vec::new();
                let mut k: usize = 0;
                while k < projection.len()
                    invariant
                        k <= projection@.len(),
                        columns == self.file_schema@.len(),
                        found@ == file_columns(projection@.take(k as int), columns as nat),
                    decreases projection@.len() - k,
                {
                    proof {
                        assert(projection@.take(k + 1) =~= projection@.take(k as int).push(
                            projection@[k as int],
                        ));
                        projection@.take(k as int).lemma_filter_push(
                            projection@[k as int],
                            |i: usize| i < columns as nat,
                        );
                    }
                    if projection[k] < columns {
                        found.push(projection[k]);
                    }
                    k += 1;
                }
                proof {
                    assert(projection@.take(k as int) =~= projection@);
                }
                Some(found)
            },
        }
    }

    /// The columns that the scan reads from its files.
    pub fn resolved_projection(&self) -> (projection: Vec<usize>)
        ensures
            projection@ == self.spec_projection(),
            forall|k: int| 0 <= k < projection@.len() ==> projection@[k] < self.file_schema@.len(),
    {
        proof {
            match &self.projection {
                Some(given) => lemma_file_columns_are_columns(given@, self.file_schema@.len()),
                None => {},
            }
        }
        match self.file_column_projection_indices() {
            Some(found) => found,
            None => {
                let columns = self.file_schema.len();
                let mut all: Vec<usize> = Vec::new();
                let mut i: usize = 0;
                while i < columns
                    invariant
                        i <= columns,
                        all@ == all_columns(i as nat),
                    decreases columns - i,
                {
                    all.push(i);
                    proof {
                        assert(all@ =~= all_columns((i + 1) as nat));
                    }
                    i += 1;
                }
                all
            },
        }
    }

    /// Names of the columns that the scan reads, in the order it reads them.
    pub fn projected_schema(&self) -> (names: Vec<String>)
        ensures
            names@ == self.spec_projected_schema(),
    {
        let projection = self.resolved_projection();
        let mut names: Vec<String> = Vec::new();
        let mut k: usize = 0;
        while k < projection.len()
            invariant
                k <= projection@.len(),
                projection@ == self.spec_projection(),
                forall|j: int|
                    0 <= j < projection@.len() ==> projection@[j] < self.file_schema@.len(),
                names@ == self.spec_projected_schema().take(k as int),
            decreases projection@.len() - k,
        {
            names.push(self.file_schema[projection[k]].clone());
            proof {
                assert(names@ =~= self.spec_projected_schema().take(k + 1));
            }
            k += 1;
        }
        proof {
            assert(self.spec_projected_schema().take(k as int) =~= self.spec_projected_schema());
        }
        names
    }
}

/// Every position that `file_columns` keeps names a column.
pub proof fn lemma_file_columns_are_columns(projection: Seq<usize>, columns: nat)
    ensures
        forall|k: int|
            0 <= k < file_columns(projection, columns).len() ==> (#[trigger] file_columns(
                projection,
                columns,
            )[k]) < columns,
{
    let pred = |i: usize| i < columns;
    assert forall|k: int| 0 <= k < projection.filter(pred).len() implies (
    #[trigger] projection.filter(pred)[k]) < columns by {
        projection.lemma_filter_pred(pred, k);
    }
}

/// The options of the host that a partition is opened under.
#[derive(Clone, Copy, PartialEq, Eq, Debug)]
pub struct ScanOptions {
    /// Page-level filtering: push the filter down, reorder it, use the page
    /// index.
    pub page_filtering_enabled: bool,
    /// Check row groups against their bloom filters before reading them.
    pub bloom_filter_enabled: bool,
    /// Skip a corrupted file instead of failing the scan.
    pub ignore_corrupted_files: bool,
    /// Number of rows in a decoded batch, the same for every partition.
    pub batch_size: usize,
}

impl ScanOptions {
    /// The policy for a corrupted file.
    pub open spec fn spec_on_error(&self) -> OnError {
        if self.ignore_corrupted_files {
            OnError::Skip
        } else {
            OnError::Fail
        }
    }

    #[verifier::when_used_as_spec(spec_on_error)]
    pub fn on_error(&self) -> (policy: OnError)
        ensures
            policy == self.spec_on_error(),
    {
        if self.ignore_corrupted_files {
            OnError::Skip
        } else {
            OnError::Fail
        }
    }
}

/// What a partition is opened with: everything that the opener of its files
/// and its stream need to know.
pub struct PartitionOpener {
    pub partition_index: usize,
    /// Positions of the columns to read from each file.
    pub projection: Vec<usize>,
    pub batch_size: usize,
    pub limit: Option<usize>,
    /// Number of files in the partition's group.
    pub files: usize,
    /// Prune row groups by their statistics.
    pub prune_row_groups: bool,
    /// Prune pages by the page index.
    pub prune_pages: bool,
    pub pushdown_filters: bool,
    pub reorder_filters: bool,
    pub enable_page_index: bool,
    pub enable_bloom_filter: bool,
    pub on_error: OnError,
}

impl PartitionOpener {
    /// The partition's stream, before any event.
    pub fn stream(&self) -> (stream: PartitionStream)
        ensures
            stream@ == StreamState::start(
                self.files as nat,
                limit_view(self.limit),
                self.on_error,
            ),
    {
        PartitionStream::new(self.files, self.limit, self.on_error)
    }
}

/// What the plan promises of its output.
#[derive(Clone, Copy, PartialEq, Eq, Debug, Structural)]
pub struct PlanProperties {
    /// Number of partitions: one per file group, fixed when the plan is made.
    pub partition_count: usize,
    /// The output is finite.
    pub bounded: bool,
}

/// The counters of the plan as a whole.
#[derive(Clone, Copy, PartialEq, Eq, Debug, Structural)]
pub struct PlanMetrics {
    /// Number of pruning predicates that could not be built.
    pub predicate_creation_errors: usize,
}

/// Mathematical model of a [`ParquetExec`].
pub struct PlanState {
    pub fs_resource_id: Seq<char>,
    pub config: ScanConfig,
    /// Names of the columns that the scan emits.
    pub projected_schema: Seq<String>,
    pub pruning: PruningPredicateSet,
    pub metrics: PlanMetrics,
    /// The properties, once they have been asked for.
    pub properties: Option<PlanProperties>,
}

impl PlanState {
    /// The properties of the plan.
    pub open spec fn resolved(self) -> PlanProperties {
        PlanProperties { partition_count: self.config.file_groups@.len() as usize, bounded: true }
    }

    /// The columns emitted are those of the projection, and properties that
    /// have been asked for are the plan's, and stay.
    pub open spec fn wf(self) -> bool {
        &&& self.projected_schema == self.config.spec_projected_schema()
        &&& self.properties matches Some(properties) ==> properties == self.resolved()
    }

    /// `opener` is what the partition `partition_index` is opened with under
    /// `options`.
    pub open spec fn opens(
        self,
        partition_index: usize,
        options: ScanOptions,
        opener: PartitionOpener,
    ) -> bool {
        &&& opener.partition_index == partition_index
        &&& opener.projection@ == self.config.spec_projection()
        &&& opener.batch_size == options.batch_size
        &&& opener.limit == self.config.limit
        &&& opener.files == self.config.file_groups@[partition_index as int]@.len()
        &&& opener.prune_row_groups == self.pruning.spec_row_group().is_some()
        &&& opener.prune_pages == self.pruning.spec_page()
        &&& opener.pushdown_filters == options.page_filtering_enabled
        &&& opener.reorder_filters == options.page_filtering_enabled
        &&& opener.enable_page_index == options.page_filtering_enabled
        &&& opener.enable_bloom_filter == options.bloom_filter_enabled
        &&& opener.on_error == options.spec_on_error()
    }
}

/// How `{:?}` prints each file of one group.
pub open spec fn group_texts(group: Vec<FilePartition>) -> Seq<Seq<char>> {
    Seq::new(group@.len(), |i: int| debug_file(group@[i]))
}

/// How `{:?}` prints each file, group by group.
pub open spec fn texts_by_group(groups: Seq<Vec<FilePartition>>) -> Seq<Seq<Seq<char>>> {
    Seq::new(groups.len(), |g: int| group_texts(groups[g]))
}

/// How `{:?}` prints the files of `groups`, all in one list, group after
/// group.
pub open spec fn debug_files(groups: Seq<Vec<FilePartition>>) -> Seq<char> {
    debug_list(texts_by_group(groups).flatten())
}

/// The one-line description of a plan with the given limit, and with the
/// given texts for its files and its predicate.
pub open spec fn plan_line(limit: Option<usize>, files: Seq<char>, predicate: Seq<char>) -> Seq<
    char,
> {
    "ParquetExec: limit="@ + debug_limit(limit) + ", file_group="@ + files + ", predicate="@
        + predicate
}

/// The one-line description of a plan with the given limit, and with the
/// given texts for its files and its predicate.
pub fn describe_with(limit: &Option<usize>, files: &str, predicate: &str) -> (line: String)
    ensures
        line@ == plan_line(*limit, files@, predicate@),
{
    let mut line = "ParquetExec: limit=".to_owned();
    line.append(limit_text(limit).as_str());
    line.append(", file_group=");
    line.append(files);
    line.append(", predicate=");
    line.append(predicate);
    line
}

/// Execution plan for scanning the files of one scan request.
pub struct ParquetExec {
    fs_resource_id: String,
    base_config: ScanConfig,
    projected_schema: Vec<String>,
    pruning: PruningPredicateSet,
    metrics: PlanMetrics,
    props: Option<PlanProperties>,
}

impl View for ParquetExec {
    type V = PlanState;

    closed spec fn view(&self) -> PlanState {
        PlanState {
            fs_resource_id: self.fs_resource_id@,
            config: self.base_config,
            projected_schema: self.projected_schema@,
            pruning: self.pruning,
            metrics: self.metrics,
            properties: self.props,
        }
    }
}

impl ParquetExec {
    #[verifier::type_invariant]
    spec fn inv(self) -> bool {
        self@.wf()
    }

    /// The plan for `base_config`, reading through the storage resource that
    /// the host knows as `fs_resource_id`. `predicate` is what became of
    /// building the row-group pruning predicate from the scan's predicate,
    /// and `None` where the scan has none.
    ///
    /// No storage is touched. The properties are not resolved yet.
    pub fn new(
        base_config: ScanConfig,
        fs_resource_id: String,
        predicate: Option<Result<PruningPredicate, DataFusionError>>,
    ) -> (plan: Self)
        ensures
            plan@.wf(),
            plan@.fs_resource_id == fs_resource_id@,
            plan@.config == base_config,
            plan@.properties.is_none(),
            plan@.pruning.spec_page() == predicate.is_some(),
            plan@.pruning.spec_row_group().is_some() <==> (predicate matches Some(Ok(built))
                && !trivially_true(built)),
            plan@.pruning.spec_row_group() matches Some(kept) ==> predicate == Some(
                Ok::<PruningPredicate, DataFusionError>(kept),
            ),
            plan@.metrics.predicate_creation_errors == (if predicate matches Some(Err(_)) {
                1usize
            } else {
                0usize
            }),
    {
        let (pruning, failed) = PruningPredicateSet::build(predicate);
        let projected_schema = base_config.projected_schema();
        ParquetExec {
            fs_resource_id,
            base_config,
            projected_schema,
            pruning,
            metrics: PlanMetrics { predicate_creation_errors: failed },
            props: None,
        }
    }

    /// Name of the host's storage resource.
    pub fn fs_resource_id(&self) -> (id: &String)
        ensures
            id@ == self@.fs_resource_id,
    {
        &self.fs_resource_id
    }

    /// The request that the plan was made for.
    pub fn base_config(&self) -> (config: &ScanConfig)
        ensures
            *config == self@.config,
    {
        &self.base_config
    }

    /// The pruning predicates, shared by all partitions.
    pub fn pruning(&self) -> (pruning: &PruningPredicateSet)
        ensures
            *pruning == self@.pruning,
    {
        &self.pruning
    }

    /// Names of the columns that the scan emits.
    pub fn schema(&self) -> (names: &Vec<String>)
        ensures
            names@ == self@.projected_schema,
            names@ == self@.config.spec_projected_schema(),
    {
        proof {
            use_type_invariant(self);
        }
        &self.projected_schema
    }

    /// The row and byte estimates of the request. No storage is touched.
    pub fn statistics(&self) -> (statistics: Statistics)
        ensures
            statistics == self@.config.statistics,
    {
        self.base_config.statistics
    }

    /// A snapshot of the plan's counters.
    pub fn metrics(&self) -> (metrics: PlanMetrics)
        ensures
            metrics == self@.metrics,
    {
        self.metrics
    }

    /// Number of partitions: one per file group.
    pub fn partition_count(&self) -> (count: usize)
        ensures
            count == self@.config.file_groups@.len(),
            count == self@.resolved().partition_count,
    {
        self.base_config.file_groups.len()
    }

    /// The properties of the plan. They are worked out when first asked for
    /// and kept from then on; asking changes nothing else.
    pub fn properties(&mut self) -> (properties: PlanProperties)
        ensures
            properties == old(self)@.resolved(),
            final(self)@ == (PlanState { properties: Some(properties), ..old(self)@ }),
            final(self)@.wf(),
    {
        proof {
            use_type_invariant(&*self);
        }
        match self.props {
            Some(properties) => properties,
            None => {
                let properties = PlanProperties {
                    partition_count: self.base_config.file_groups.len(),
                    bounded: true,
                };
                self.props = Some(properties);
                properties
            },
        }
    }

    /// The files of the scan, all in one list, as `{:?}` prints them.
    pub fn files_text(&self) -> (shown: String)
        ensures
            shown@ == debug_files(self@.config.file_groups@),
    {
        let groups = &self.base_config.file_groups;
        let mut texts: Vec<String> = Vec::new();
        let mut g: usize = 0;
        while g < groups.len()
            invariant
                g <= groups@.len(),
                views(texts@) == texts_by_group(groups@.take(g as int)).flatten(),
            decreases groups@.len() - g,
        {
            let group = &groups[g];
            let ghost done = views(texts@);
            let mut f: usize = 0;
            while f < group.len()
                invariant
                    f <= group@.len(),
                    views(texts@) == done + group_texts(*group).take(f as int),
                decreases group@.len() - f,
            {
                let ghost before = texts@;
                texts.push(file_text(&group[f]));
                proof {
                    assert(views(before).len() == before.len());
                    assert forall|j: int| 0 <= j < before.len() implies views(texts@)[j]
                        == views(before)[j] by {
                        assert(texts@[j] == before[j]);
                    }
                    assert(views(texts@) =~= views(before).push(debug_file(group@[f as int])));
                    assert(group_texts(*group).take(f + 1) =~= group_texts(*group).take(
                        f as int,
                    ).push(debug_file(group@[f as int])));
                }
                f += 1;
            }
            proof {
                assert(group_texts(*group).take(f as int) =~= group_texts(*group));
                let before = texts_by_group(groups@.take(g as int));
                assert(texts_by_group(groups@.take(g + 1)) =~= before.push(group_texts(*group)));
                before.lemma_flatten_push(group_texts(*group));
            }
            g += 1;
        }
        proof {
            assert(groups@.take(g as int) =~= groups@);
        }
        list_text(&texts)
    }

    /// The plan in one line: its limit, its files in full, and the
    /// expression of its row-group predicate. A plan without such a
    /// predicate shows `<empty>` in its place, also where the scan has a
    /// predicate that prunes nothing.
    pub fn describe(&self) -> (line: String)
        ensures
            line@ == plan_line(
                self@.config.limit,
                debug_files(self@.config.file_groups@),
                self@.pruning.spec_shown(),
            ),
    {
        let files = self.files_text();
        let predicate = self.pruning.shown();
        describe_with(&self.base_config.limit, files.as_str(), predicate.as_str())
    }

    /// What the partition `partition_index` is opened with under `options`.
    ///
    /// The plan itself is left as it is: partitions share nothing that any of
    /// them could change.
    pub fn execute(&self, partition_index: usize, options: &ScanOptions) -> (opener:
        PartitionOpener)
        requires
            partition_index < self@.config.file_groups@.len(),
        ensures
            self@.opens(partition_index, *options, opener),
    {
        PartitionOpener {
            partition_index,
            projection: self.base_config.resolved_projection(),
            batch_size: options.batch_size,
            limit: self.base_config.limit,
            files: self.base_config.file_groups[partition_index].len(),
            prune_row_groups: self.pruning.row_group().is_some(),
            prune_pages: self.pruning.page(),
            pushdown_filters: options.page_filtering_enabled,
            reorder_filters: options.page_filtering_enabled,
            enable_page_index: options.page_filtering_enabled,
            enable_bloom_filter: options.bloom_filter_enabled,
            on_error: options.on_error(),
        }
    }
}

} // verus!
