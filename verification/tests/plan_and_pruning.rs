use std::sync::Arc;

use arrow::array::{ArrayRef, BooleanArray, Int64Array};
use arrow::datatypes::{DataType, Field, Schema};
use datafusion::common::{Column as ColumnName, ScalarValue};
use datafusion::error::DataFusionError;
use datafusion::logical_expr::Operator;
use datafusion::physical_expr::expressions::{BinaryExpr, Column, Literal};
use datafusion::physical_optimizer::pruning::{PruningPredicate, PruningStatistics};
use datafusion::physical_plan::PhysicalExpr;
use parquet_scan::file::FilePartition;
use parquet_scan::plan::{
    describe_with, ParquetExec, PlanProperties, Precision, ScanConfig, ScanOptions, Statistics,
};
use parquet_scan::pruning::{
    keep_unless_trivial, statistics_verdicts, PruningPredicateSet, RowGroupVerdict,
};
use parquet_scan::stream::{OnError, StreamAction, StreamEvent, StreamStatus};
use std::collections::HashSet;

fn schema() -> Arc<Schema> {
    Arc::new(Schema::new(vec![Field::new("col", DataType::Int64, true)]))
}

/// `col > 10`
fn col_gt_10() -> Arc<dyn PhysicalExpr> {
    Arc::new(BinaryExpr::new(
        Arc::new(Column::new("col", 0)),
        Operator::Gt,
        Arc::new(Literal::new(ScalarValue::Int64(Some(10)))),
    ))
}

fn literal_true() -> Arc<dyn PhysicalExpr> {
    Arc::new(Literal::new(ScalarValue::Boolean(Some(true))))
}

fn built(expr: Arc<dyn PhysicalExpr>) -> Option<Result<PruningPredicate, DataFusionError>> {
    Some(PruningPredicate::try_new(expr, schema()))
}

fn file(name: &str, size: usize) -> FilePartition {
    FilePartition::new(name.to_string(), size)
}

fn config() -> ScanConfig {
    ScanConfig {
        file_groups: vec![
            vec![file("t/a.parquet", 100)],
            vec![file("t/b.parquet", 200), file("t/c.parquet", 300)],
            vec![],
        ],
        file_schema: vec!["id".to_string(), "col".to_string(), "name".to_string()],
        projection: None,
        limit: None,
        statistics: Statistics {
            num_rows: Precision::Exact(1000),
            total_byte_size: Precision::Inexact(600),
        },
    }
}

fn options() -> ScanOptions {
    ScanOptions {
        page_filtering_enabled: false,
        bloom_filter_enabled: false,
        ignore_corrupted_files: false,
        batch_size: 8192,
    }
}

struct MinMax {
    min: Vec<i64>,
    max: Vec<i64>,
}

impl PruningStatistics for MinMax {
    fn min_values(&self, _column: &ColumnName) -> Option<ArrayRef> {
        Some(Arc::new(Int64Array::from(self.min.clone())))
    }

    fn max_values(&self, _column: &ColumnName) -> Option<ArrayRef> {
        Some(Arc::new(Int64Array::from(self.max.clone())))
    }

    fn num_containers(&self) -> usize {
        self.min.len()
    }

    fn null_counts(&self, _column: &ColumnName) -> Option<ArrayRef> {
        None
    }

    fn row_counts(&self, _column: &ColumnName) -> Option<ArrayRef> {
        None
    }

    fn contained(&self, _column: &ColumnName, _values: &HashSet<ScalarValue>) -> Option<BooleanArray> {
        None
    }
}

#[test]
fn plan_without_predicate_prunes_nothing() {
    let plan = ParquetExec::new(config(), "fs-1".to_string(), None);
    assert_eq!(plan.fs_resource_id(), "fs-1");
    assert!(plan.pruning().row_group().is_none());
    assert!(!plan.pruning().page());
    assert_eq!(plan.metrics().predicate_creation_errors, 0);
}

#[test]
fn plan_keeps_a_predicate_that_can_prune() {
    let plan = ParquetExec::new(config(), "fs-1".to_string(), built(col_gt_10()));
    assert!(plan.pruning().row_group().is_some());
    assert!(plan.pruning().page());
    assert_eq!(plan.metrics().predicate_creation_errors, 0);
}

#[test]
fn plan_discards_a_predicate_that_is_always_true() {
    let plan = ParquetExec::new(config(), "fs-1".to_string(), built(literal_true()));
    assert!(plan.pruning().row_group().is_none());
    // the page predicate is built from the user predicate on its own
    assert!(plan.pruning().page());
    assert_eq!(plan.metrics().predicate_creation_errors, 0);
}

#[test]
fn failed_predicate_is_counted_and_does_not_fail_the_plan() {
    let failed = Some(Err(DataFusionError::Plan("unsupported predicate".to_string())));
    let plan = ParquetExec::new(config(), "fs-1".to_string(), failed);
    assert!(plan.pruning().row_group().is_none());
    assert!(plan.pruning().page());
    assert_eq!(plan.metrics().predicate_creation_errors, 1);
    assert_eq!(plan.partition_count(), 3);
}

#[test]
fn predicate_set_build_counts_failures() {
    let (set, failed) = PruningPredicateSet::build(None);
    assert!(set.row_group().is_none() && !set.page());
    assert_eq!(failed, 0);
    let (set, failed) = PruningPredicateSet::build(Some(Err(DataFusionError::Plan("x".into()))));
    assert!(set.row_group().is_none() && set.page());
    assert_eq!(failed, 1);
    let (set, failed) = PruningPredicateSet::build(built(col_gt_10()));
    assert!(set.row_group().is_some() && set.page());
    assert_eq!(failed, 0);
}

#[test]
fn keep_unless_trivial_follows_the_flag() {
    let predicate = PruningPredicate::try_new(col_gt_10(), schema()).unwrap();
    assert!(keep_unless_trivial(predicate.clone(), true).is_none());
    let kept = keep_unless_trivial(predicate, false).unwrap();
    assert!(!kept.always_true());
}

#[test]
fn plan_has_one_partition_per_file_group() {
    let mut plan = ParquetExec::new(config(), "fs".to_string(), None);
    assert_eq!(plan.partition_count(), 3);
    let first = plan.properties();
    assert_eq!(first, PlanProperties { partition_count: 3, bounded: true });
    // asking again gives the same answer
    assert_eq!(plan.properties(), first);
    assert_eq!(plan.partition_count(), 3);
    assert_eq!(plan.base_config().file_groups.len(), 3);
}

#[test]
fn statistics_are_the_request_s_estimates() {
    let plan = ParquetExec::new(config(), "fs".to_string(), None);
    assert_eq!(
        plan.statistics(),
        Statistics { num_rows: Precision::Exact(1000), total_byte_size: Precision::Inexact(600) }
    );
}

#[test]
fn plan_without_projection_reads_every_column() {
    let plan = ParquetExec::new(config(), "fs".to_string(), None);
    assert_eq!(plan.schema(), &vec!["id".to_string(), "col".to_string(), "name".to_string()]);
    assert_eq!(plan.base_config().file_column_projection_indices(), None);
    assert_eq!(plan.base_config().resolved_projection(), vec![0, 1, 2]);
    let opener = plan.execute(0, &options());
    assert_eq!(opener.projection, vec![0, 1, 2]);
}

#[test]
fn projection_keeps_order_and_drops_what_is_no_file_column() {
    let mut request = config();
    request.projection = Some(vec![2, 7, 0, 3, 2]);
    assert_eq!(request.file_column_projection_indices(), Some(vec![2, 0, 2]));
    assert_eq!(request.resolved_projection(), vec![2, 0, 2]);
    assert_eq!(
        request.projected_schema(),
        vec!["name".to_string(), "id".to_string(), "name".to_string()]
    );
    let plan = ParquetExec::new(request, "fs".to_string(), None);
    assert_eq!(plan.schema(), &vec!["name".to_string(), "id".to_string(), "name".to_string()]);
    assert_eq!(plan.execute(1, &options()).projection, vec![2, 0, 2]);
}

#[test]
fn empty_projection_reads_no_column() {
    let mut request = config();
    request.projection = Some(vec![]);
    assert_eq!(request.file_column_projection_indices(), Some(vec![]));
    assert_eq!(request.resolved_projection(), Vec::<usize>::new());
    assert_eq!(request.projected_schema(), Vec::<String>::new());
}

#[test]
fn execute_binds_the_opener_to_plan_and_options() {
    let mut request = config();
    request.limit = Some(50);
    let plan = ParquetExec::new(request, "fs".to_string(), built(col_gt_10()));
    let opts = ScanOptions {
        page_filtering_enabled: true,
        bloom_filter_enabled: true,
        ignore_corrupted_files: true,
        batch_size: 1024,
    };
    let opener = plan.execute(1, &opts);
    assert_eq!(opener.partition_index, 1);
    assert_eq!(opener.batch_size, 1024);
    assert_eq!(opener.limit, Some(50));
    assert_eq!(opener.files, 2);
    assert!(opener.prune_row_groups);
    assert!(opener.prune_pages);
    assert!(opener.pushdown_filters);
    assert!(opener.reorder_filters);
    assert!(opener.enable_page_index);
    assert!(opener.enable_bloom_filter);
    assert_eq!(opener.on_error, OnError::Skip);

    let opener = plan.execute(0, &options());
    assert_eq!(opener.partition_index, 0);
    assert_eq!(opener.batch_size, 8192);
    assert_eq!(opener.files, 1);
    assert!(!opener.pushdown_filters);
    assert!(!opener.reorder_filters);
    assert!(!opener.enable_page_index);
    assert!(!opener.enable_bloom_filter);
    assert_eq!(opener.on_error, OnError::Fail);
}

#[test]
fn opener_starts_the_stream_of_its_partition() {
    let mut request = config();
    request.limit = Some(3);
    let plan = ParquetExec::new(request, "fs".to_string(), None);
    let mut stream = plan.execute(1, &options()).stream();
    assert_eq!(stream.first_action(), StreamAction::Open { file: 0 });
    assert_eq!(stream.remaining(), Some(3));
    assert_eq!(stream.advance(StreamEvent::EndOfFile), StreamAction::Open { file: 1 });
    assert_eq!(stream.advance(StreamEvent::Batch { rows: 9 }), StreamAction::EmitLast { rows: 3 });

    // a group without files is complete from the start
    let stream = plan.execute(2, &options()).stream();
    assert_eq!(stream.status(), StreamStatus::Completed);
    assert_eq!(stream.first_action(), StreamAction::Finish);
}

#[test]
fn on_error_follows_the_option() {
    let mut opts = options();
    assert_eq!(opts.on_error(), OnError::Fail);
    opts.ignore_corrupted_files = true;
    assert_eq!(opts.on_error(), OnError::Skip);
}

fn verdicts(flags: &[(bool, bool)]) -> Vec<RowGroupVerdict> {
    flags.iter().map(|(statistics, bloom)| RowGroupVerdict { statistics: *statistics, bloom: *bloom }).collect()
}

#[test]
fn without_row_group_predicate_every_row_group_is_read() {
    let (set, _) = PruningPredicateSet::build(None);
    let all = verdicts(&[(false, false), (true, false), (false, true)]);
    assert_eq!(set.row_groups_to_read(true, &all), vec![0, 1, 2]);
    assert_eq!(set.row_groups_to_read(false, &all), vec![0, 1, 2]);
    // the same when the predicate could not be built, or prunes nothing
    let (set, _) = PruningPredicateSet::build(Some(Err(DataFusionError::Plan("x".into()))));
    assert_eq!(set.row_groups_to_read(true, &all), vec![0, 1, 2]);
    let (set, _) = PruningPredicateSet::build(built(literal_true()));
    assert_eq!(set.row_groups_to_read(true, &all), vec![0, 1, 2]);
}

#[test]
fn row_groups_are_pruned_by_statistics_and_bloom_filters() {
    let (set, _) = PruningPredicateSet::build(built(col_gt_10()));
    let all = verdicts(&[(true, true), (false, true), (true, false), (false, false), (true, true)]);
    assert_eq!(set.row_groups_to_read(false, &all), vec![0, 2, 4]);
    assert_eq!(set.row_groups_to_read(true, &all), vec![0, 4]);
    assert_eq!(set.row_groups_to_read(true, &Vec::new()), Vec::<usize>::new());
}

#[test]
fn file_whose_maximum_is_below_the_bound_is_not_read() {
    // three file groups of one file each, one row group per file; the
    // statistics of the second file say max(col) = 5
    let request = ScanConfig {
        file_groups: vec![vec![file("f1", 10)], vec![file("f2", 10)], vec![file("f3", 10)]],
        file_schema: vec!["col".to_string()],
        projection: None,
        limit: None,
        statistics: Statistics { num_rows: Precision::Absent, total_byte_size: Precision::Absent },
    };
    let plan = ParquetExec::new(request, "fs".to_string(), built(col_gt_10()));
    let opts = ScanOptions { bloom_filter_enabled: true, ..options() };
    let stats = [
        MinMax { min: vec![0], max: vec![50] },
        MinMax { min: vec![1], max: vec![5] },
        MinMax { min: vec![20], max: vec![100] },
    ];
    let mut reads = Vec::new();
    let mut batches = Vec::new();
    for partition in 0..3 {
        let opener = plan.execute(partition, &opts);
        let predicate = plan.pruning().row_group().unwrap();
        let by_statistics = predicate.prune(&stats[partition]).unwrap();
        let verdicts: Vec<RowGroupVerdict> = by_statistics
            .iter()
            .map(|keep| RowGroupVerdict { statistics: *keep, bloom: true })
            .collect();
        let selected = plan.pruning().row_groups_to_read(opener.enable_bloom_filter, &verdicts);
        let mut stream = opener.stream();
        let mut emitted = 0;
        assert_eq!(stream.first_action(), StreamAction::Open { file: 0 });
        for _ in &selected {
            if let StreamAction::Emit { .. } = stream.advance(StreamEvent::Batch { rows: 100 }) {
                emitted += 1;
            }
        }
        assert_eq!(stream.advance(StreamEvent::EndOfFile), StreamAction::Finish);
        reads.push(selected.len());
        batches.push(emitted);
    }
    assert_eq!(reads, vec![1, 0, 1]);
    assert_eq!(batches, vec![1, 0, 1]);
}

#[test]
fn plan_is_described_in_one_line() {
    let mut request = config();
    request.limit = Some(3);
    let plan = ParquetExec::new(request, "fs".to_string(), None);
    assert_eq!(
        plan.files_text(),
        "[FilePartition { location: \"t/a.parquet\", size: 100, partition_values: None }, \
         FilePartition { location: \"t/b.parquet\", size: 200, partition_values: None }, \
         FilePartition { location: \"t/c.parquet\", size: 300, partition_values: None }]"
    );
    // the files are shown as `{:?}` prints them
    let files: Vec<&FilePartition> = plan.base_config().file_groups.iter().flatten().collect();
    assert_eq!(plan.files_text(), format!("{:?}", files));
    assert_eq!(
        plan.describe(),
        format!("ParquetExec: limit=Some(3), file_group={:?}, predicate=<empty>", files)
    );
}

#[test]
fn plan_without_files_is_described_too() {
    let request = ScanConfig {
        file_groups: vec![vec![], vec![]],
        file_schema: vec![],
        projection: None,
        limit: Some(1234567890),
        statistics: Statistics { num_rows: Precision::Absent, total_byte_size: Precision::Absent },
    };
    let plan = ParquetExec::new(request, "fs".to_string(), None);
    assert_eq!(
        plan.describe(),
        "ParquetExec: limit=Some(1234567890), file_group=[], predicate=<empty>"
    );
}

#[test]
fn description_shows_the_row_group_predicate() {
    let plan = ParquetExec::new(config(), "fs".to_string(), built(col_gt_10()));
    let shown = format!("{}", plan.pruning().row_group().unwrap().predicate_expr());
    assert!(!shown.is_empty());
    assert_ne!(shown, "<empty>");
    assert_eq!(plan.pruning().shown(), shown);
    let files: Vec<&FilePartition> = plan.base_config().file_groups.iter().flatten().collect();
    assert_eq!(
        plan.describe(),
        format!("ParquetExec: limit=None, file_group={:?}, predicate={}", files, shown)
    );
    // a predicate that prunes nothing is not shown, though the scan has one
    let plan = ParquetExec::new(config(), "fs".to_string(), built(literal_true()));
    assert_eq!(plan.pruning().shown(), "<empty>");
    assert!(plan.describe().ends_with("predicate=<empty>"));
    // and neither is one that could not be built
    let failed = Some(Err(DataFusionError::Plan("unsupported predicate".to_string())));
    let plan = ParquetExec::new(config(), "fs".to_string(), failed);
    assert!(plan.describe().ends_with("predicate=<empty>"));
}

#[test]
fn describe_with_puts_the_parts_together() {
    assert_eq!(
        describe_with(&None, "[]", "a@0 > 1"),
        "ParquetExec: limit=None, file_group=[], predicate=a@0 > 1"
    );
    assert_eq!(
        describe_with(&Some(10), "[x]", "<empty>"),
        "ParquetExec: limit=Some(10), file_group=[x], predicate=<empty>"
    );
}

#[test]
fn statistics_verdicts_follow_the_flags() {
    let verdicts = statistics_verdicts(Some(vec![true, false, true]), 3);
    assert_eq!(
        verdicts,
        vec![
            RowGroupVerdict { statistics: true, bloom: true },
            RowGroupVerdict { statistics: false, bloom: true },
            RowGroupVerdict { statistics: true, bloom: true },
        ]
    );
    assert_eq!(statistics_verdicts(Some(vec![]), 0), Vec::<RowGroupVerdict>::new());
}

#[test]
fn statistics_that_cannot_be_used_rule_nothing_out() {
    let open = RowGroupVerdict { statistics: true, bloom: true };
    // not evaluated
    assert_eq!(statistics_verdicts(None, 2), vec![open, open]);
    // not one flag per row group
    assert_eq!(statistics_verdicts(Some(vec![false]), 2), vec![open, open]);
    assert_eq!(statistics_verdicts(Some(vec![false, false, false]), 2), vec![open, open]);
    assert_eq!(statistics_verdicts(None, 0), Vec::<RowGroupVerdict>::new());
}

#[test]
fn pruning_does_not_change_what_matches() {
    // row groups of one file, with the values of `col`
    let groups: Vec<Vec<i64>> = vec![
        vec![1, 50, 3],
        vec![2, 5, 4],
        vec![],
        vec![11, 12],
        vec![10, 10],
        vec![0, 99],
    ];
    let min: Vec<i64> = groups.iter().map(|g| g.iter().copied().min().unwrap_or(0)).collect();
    let max: Vec<i64> = groups.iter().map(|g| g.iter().copied().max().unwrap_or(0)).collect();
    let predicate = PruningPredicate::try_new(col_gt_10(), schema()).unwrap();
    let by_statistics = predicate.prune(&MinMax { min, max }).unwrap();
    assert_eq!(by_statistics, vec![true, false, false, true, false, true]);
    let verdicts: Vec<RowGroupVerdict> = by_statistics
        .iter()
        .map(|keep| RowGroupVerdict { statistics: *keep, bloom: true })
        .collect();

    let matching = |selected: &[usize]| -> Vec<i64> {
        selected.iter().flat_map(|i| groups[*i].iter().copied()).filter(|v| *v > 10).collect()
    };
    let (pruned, _) = PruningPredicateSet::build(built(col_gt_10()));
    let (unpruned, _) = PruningPredicateSet::build(None);
    let with_pruning = pruned.row_groups_to_read(true, &verdicts);
    let without_pruning = unpruned.row_groups_to_read(true, &verdicts);
    assert_eq!(with_pruning, vec![0, 3, 5]);
    assert_eq!(without_pruning, vec![0, 1, 2, 3, 4, 5]);
    assert_eq!(matching(&with_pruning), vec![50, 11, 12, 99]);
    assert_eq!(matching(&with_pruning), matching(&without_pruning));
}
