use bytes::Bytes;
use parquet_scan::error::{footer_outcome, IoFault, ScanError};
use parquet_scan::file::{ByteRange, FilePartition};
use parquet_scan::reader::{label_for, FsReaderFactory, DEFAULT_FILENAME};
use parquet_scan::stream::{OnError, PartitionStream, StreamAction, StreamEvent, StreamStatus};

fn range(start: usize, end: usize) -> ByteRange {
    ByteRange::new(start, end).unwrap()
}

fn emitted(actions: &[StreamAction]) -> usize {
    actions
        .iter()
        .map(|a| match a {
            StreamAction::Emit { rows } => *rows,
            StreamAction::EmitLast { rows } => *rows,
            _ => 0,
        })
        .sum()
}

#[test]
fn stream_without_files_finishes_at_once() {
    let mut stream = PartitionStream::new(0, None, OnError::Fail);
    assert_eq!(stream.status(), StreamStatus::Completed);
    assert_eq!(stream.first_action(), StreamAction::Finish);
    assert_eq!(stream.advance(StreamEvent::Batch { rows: 3 }), StreamAction::Stop);
    assert_eq!(stream.rows_produced(), 0);
}

#[test]
fn limit_of_zero_reads_nothing() {
    let mut stream = PartitionStream::new(2, Some(0), OnError::Fail);
    assert_eq!(stream.status(), StreamStatus::Completed);
    assert_eq!(stream.first_action(), StreamAction::Finish);
    assert_eq!(stream.advance(StreamEvent::Batch { rows: 3 }), StreamAction::Stop);
    assert_eq!(stream.remaining(), Some(0));
}

#[test]
fn stream_reads_its_files_in_order() {
    let mut stream = PartitionStream::new(3, None, OnError::Fail);
    assert_eq!(stream.first_action(), StreamAction::Open { file: 0 });
    assert_eq!(stream.advance(StreamEvent::Batch { rows: 8192 }), StreamAction::Emit { rows: 8192 });
    assert_eq!(stream.advance(StreamEvent::Batch { rows: 100 }), StreamAction::Emit { rows: 100 });
    assert_eq!(stream.advance(StreamEvent::EndOfFile), StreamAction::Open { file: 1 });
    assert_eq!(stream.advance(StreamEvent::EndOfFile), StreamAction::Open { file: 2 });
    assert_eq!(stream.advance(StreamEvent::Batch { rows: 1 }), StreamAction::Emit { rows: 1 });
    assert_eq!(stream.status(), StreamStatus::Executing);
    assert_eq!(stream.advance(StreamEvent::EndOfFile), StreamAction::Finish);
    assert_eq!(stream.status(), StreamStatus::Completed);
    assert_eq!(stream.rows_produced(), 8293);
    assert_eq!(stream.remaining(), None);
    assert_eq!(stream.advance(StreamEvent::EndOfFile), StreamAction::Stop);
}

#[test]
fn limit_cuts_the_batch_that_crosses_it() {
    let mut stream = PartitionStream::new(2, Some(10), OnError::Fail);
    let mut actions = vec![stream.first_action()];
    actions.push(stream.advance(StreamEvent::Batch { rows: 4 }));
    assert_eq!(stream.remaining(), Some(6));
    actions.push(stream.advance(StreamEvent::Batch { rows: 4 }));
    assert_eq!(stream.remaining(), Some(2));
    actions.push(stream.advance(StreamEvent::Batch { rows: 4 }));
    assert_eq!(
        actions,
        vec![
            StreamAction::Open { file: 0 },
            StreamAction::Emit { rows: 4 },
            StreamAction::Emit { rows: 4 },
            StreamAction::EmitLast { rows: 2 },
        ]
    );
    assert_eq!(emitted(&actions), 10);
    assert_eq!(stream.status(), StreamStatus::Completed);
    assert_eq!(stream.remaining(), Some(0));
    assert_eq!(stream.rows_produced(), 10);
    // nothing is read after the limit
    assert_eq!(stream.advance(StreamEvent::Batch { rows: 4 }), StreamAction::Stop);
    assert_eq!(stream.advance(StreamEvent::EndOfFile), StreamAction::Stop);
    assert_eq!(stream.rows_produced(), 10);
}

#[test]
fn batch_that_meets_the_limit_exactly_ends_the_stream() {
    let mut stream = PartitionStream::new(1, Some(5), OnError::Fail);
    assert_eq!(stream.advance(StreamEvent::Batch { rows: 5 }), StreamAction::EmitLast { rows: 5 });
    assert_eq!(stream.status(), StreamStatus::Completed);
}

#[test]
fn limit_also_holds_across_files() {
    let mut stream = PartitionStream::new(2, Some(7), OnError::Fail);
    assert_eq!(stream.advance(StreamEvent::Batch { rows: 5 }), StreamAction::Emit { rows: 5 });
    assert_eq!(stream.advance(StreamEvent::EndOfFile), StreamAction::Open { file: 1 });
    assert_eq!(stream.advance(StreamEvent::Batch { rows: 5 }), StreamAction::EmitLast { rows: 2 });
    assert_eq!(stream.rows_produced(), 7);
}

#[test]
fn partition_with_fewer_rows_than_the_limit_emits_them_all() {
    let mut stream = PartitionStream::new(1, Some(100), OnError::Fail);
    assert_eq!(stream.advance(StreamEvent::Batch { rows: 30 }), StreamAction::Emit { rows: 30 });
    assert_eq!(stream.advance(StreamEvent::Batch { rows: 12 }), StreamAction::Emit { rows: 12 });
    assert_eq!(stream.advance(StreamEvent::EndOfFile), StreamAction::Finish);
    assert_eq!(stream.rows_produced(), 42);
    assert_eq!(stream.remaining(), Some(58));
    assert_eq!(stream.status(), StreamStatus::Completed);
}

#[test]
fn empty_batch_is_passed_on() {
    let mut stream = PartitionStream::new(1, Some(3), OnError::Fail);
    assert_eq!(stream.advance(StreamEvent::Batch { rows: 0 }), StreamAction::Emit { rows: 0 });
    assert_eq!(stream.remaining(), Some(3));
    assert_eq!(stream.status(), StreamStatus::Executing);
}

#[test]
fn file_error_fails_the_stream_by_default() {
    let mut stream = PartitionStream::new(3, None, OnError::Fail);
    assert_eq!(stream.advance(StreamEvent::Batch { rows: 10 }), StreamAction::Emit { rows: 10 });
    assert_eq!(stream.advance(StreamEvent::FileError), StreamAction::Fail);
    assert_eq!(stream.status(), StreamStatus::Failed);
    assert_eq!(stream.advance(StreamEvent::Batch { rows: 10 }), StreamAction::Stop);
    // what was counted stays available after the failure
    assert_eq!(stream.rows_produced(), 10);
}

#[test]
fn skip_policy_goes_on_after_a_malformed_file() {
    // three files, the second one malformed
    let mut stream = PartitionStream::new(3, None, OnError::Skip);
    let mut actions = vec![stream.first_action()];
    for event in [
        StreamEvent::Batch { rows: 10 },
        StreamEvent::EndOfFile,
        StreamEvent::FileError,
        StreamEvent::Batch { rows: 5 },
        StreamEvent::EndOfFile,
    ] {
        actions.push(stream.advance(event));
    }
    assert_eq!(
        actions,
        vec![
            StreamAction::Open { file: 0 },
            StreamAction::Emit { rows: 10 },
            StreamAction::Open { file: 1 },
            StreamAction::Open { file: 2 },
            StreamAction::Emit { rows: 5 },
            StreamAction::Finish,
        ]
    );
    assert_eq!(stream.status(), StreamStatus::Completed);
    assert_eq!(stream.rows_produced(), 15);
}

#[test]
fn skip_policy_on_the_last_file_finishes_without_error() {
    let mut stream = PartitionStream::new(1, None, OnError::Skip);
    assert_eq!(stream.advance(StreamEvent::FileError), StreamAction::Finish);
    assert_eq!(stream.status(), StreamStatus::Completed);
}

#[test]
fn cancelled_stream_stops_silently() {
    let mut stream = PartitionStream::new(2, Some(10), OnError::Fail);
    assert_eq!(stream.advance(StreamEvent::Batch { rows: 3 }), StreamAction::Emit { rows: 3 });
    assert_eq!(stream.advance(StreamEvent::Cancelled), StreamAction::Stop);
    assert_eq!(stream.status(), StreamStatus::Cancelled);
    // a read that was in flight is discarded when it completes
    assert_eq!(stream.advance(StreamEvent::Batch { rows: 3 }), StreamAction::Stop);
    assert_eq!(stream.advance(StreamEvent::FileError), StreamAction::Stop);
    assert_eq!(stream.rows_produced(), 3);
    assert_eq!(stream.status(), StreamStatus::Cancelled);
}

#[test]
fn rows_produced_stops_at_the_largest_value() {
    let mut stream = PartitionStream::new(1, None, OnError::Fail);
    stream.advance(StreamEvent::Batch { rows: usize::MAX - 1 });
    assert_eq!(stream.rows_produced(), usize::MAX - 1);
    stream.advance(StreamEvent::Batch { rows: 5 });
    assert_eq!(stream.rows_produced(), usize::MAX);
}

#[test]
fn byte_range_needs_its_end_after_its_start() {
    assert!(ByteRange::new(5, 4).is_none());
    let r = range(4, 12);
    assert_eq!(r.start(), 4);
    assert_eq!(r.end(), 12);
    assert_eq!(r.len(), 8);
    assert_eq!(range(7, 7).len(), 0);
}

#[test]
fn reader_counts_under_the_file_name() {
    let factory = FsReaderFactory::new("hdfs");
    assert_eq!(*factory.fs_provider(), "hdfs");
    let file = FilePartition::new("warehouse/db/table/part-00000.parquet".to_string(), 4096);
    let reader = factory.create_reader(3, file);
    assert_eq!(reader.label(), "part-00000.parquet");
    assert_eq!(reader.partition_index(), 3);
    assert_eq!(reader.get_size(), 4096);
    assert_eq!(reader.get_meta().location, "warehouse/db/table/part-00000.parquet");
    assert_eq!(reader.get_meta().size, 4096);
    assert!(reader.get_meta().partition_values.is_none());
    assert_eq!(reader.bytes_scanned(), 0);
}

#[test]
fn reader_label_agrees_with_the_object_store() {
    let factory = FsReaderFactory::new(());
    for text in ["a/b/c.parquet", "single", "/leading/slash.parquet", "dir/with%20escape.parquet"] {
        let expected = object_store::path::Path::parse(text)
            .unwrap()
            .filename()
            .map(|s| s.to_string())
            .unwrap();
        let reader = factory.create_reader(0, FilePartition::new(text.to_string(), 1));
        assert_eq!(*reader.label(), expected);
    }
}

#[test]
fn reader_without_a_file_name_counts_under_the_default_label() {
    let factory = FsReaderFactory::new(());
    let reader = factory.create_reader(0, FilePartition::new(String::new(), 0));
    assert_eq!(reader.label(), "__default_filename__");
    // a location that is no path has no file name either
    let reader = factory.create_reader(0, FilePartition::new("a//b".to_string(), 0));
    assert_eq!(reader.label(), DEFAULT_FILENAME);
}

#[test]
fn label_for_takes_the_name_or_the_default() {
    assert_eq!(label_for(Some("x.parquet".to_string())), "x.parquet");
    assert_eq!(label_for(None), "__default_filename__");
}

#[test]
fn bytes_scanned_is_the_sum_of_the_ranges_asked_for() {
    let factory = FsReaderFactory::new(());
    let mut reader = factory.create_reader(0, FilePartition::new("f.parquet".to_string(), 1000));
    assert_eq!(reader.begin_read(&range(992, 1000)), 8);
    assert_eq!(reader.bytes_scanned(), 8);
    assert_eq!(reader.begin_read(&range(800, 992)), 192);
    assert_eq!(reader.bytes_scanned(), 200);
    assert_eq!(reader.begin_read(&range(4, 4)), 0);
    assert_eq!(reader.bytes_scanned(), 200);
    assert_eq!(reader.begin_read(&range(0, 500)), 500);
    assert_eq!(reader.bytes_scanned(), 700);
}

#[test]
fn failed_reads_are_counted_too() {
    let factory = FsReaderFactory::new(());
    let mut reader = factory.create_reader(0, FilePartition::new("f.parquet".to_string(), 1000));
    let r = range(10, 110);
    reader.begin_read(&r);
    let outcome = reader.finish_read(&r, Err("connection reset".to_string()));
    assert!(outcome.is_err());
    assert_eq!(reader.bytes_scanned(), 100);
    reader.begin_read(&r);
    let outcome = reader.finish_read(&r, Ok(Bytes::from(vec![0u8; 100])));
    assert!(outcome.is_ok());
    assert_eq!(reader.bytes_scanned(), 200);
}

#[test]
fn bytes_scanned_stops_at_the_largest_value() {
    let factory = FsReaderFactory::new(());
    let mut reader = factory.create_reader(0, FilePartition::new("f.parquet".to_string(), 1));
    reader.begin_read(&range(0, usize::MAX));
    reader.begin_read(&range(0, 10));
    assert_eq!(reader.bytes_scanned(), usize::MAX);
}

#[test]
fn read_of_the_right_length_is_handed_on() {
    let factory = FsReaderFactory::new(());
    let reader = factory.create_reader(0, FilePartition::new("f.parquet".to_string(), 1000));
    let bytes = Bytes::from(vec![1u8, 2, 3, 4]);
    match reader.finish_read(&range(20, 24), Ok(bytes.clone())) {
        Ok(got) => assert_eq!(got, bytes),
        Err(_) => panic!("a full read was refused"),
    }
    match reader.finish_read(&range(5, 5), Ok(Bytes::new())) {
        Ok(got) => assert!(got.is_empty()),
        Err(_) => panic!("an empty read of an empty range was refused"),
    }
}

#[test]
fn short_read_is_an_external_io_error() {
    let factory = FsReaderFactory::new(());
    let reader = factory.create_reader(0, FilePartition::new("f.parquet".to_string(), 1000));
    match reader.finish_read(&range(0, 8), Ok(Bytes::from(vec![0u8; 5]))) {
        Err(ScanError::ExternalIo { fault: IoFault::ShortRead { wanted, got } }) => {
            assert_eq!(wanted, 8);
            assert_eq!(got, 5);
        }
        _ => panic!("a short read was not reported"),
    }
    match reader.finish_read(&range(0, 2), Ok(Bytes::from(vec![0u8; 5]))) {
        Err(ScanError::ExternalIo { fault: IoFault::ShortRead { wanted, got } }) => {
            assert_eq!(wanted, 2);
            assert_eq!(got, 5);
        }
        _ => panic!("a read of the wrong length was not reported"),
    }
}

#[test]
fn storage_error_is_an_external_io_error() {
    let factory = FsReaderFactory::new(());
    let reader = factory.create_reader(0, FilePartition::new("f.parquet".to_string(), 1000));
    let outcome = reader.finish_read(&range(0, 8), Err("resource unavailable".to_string()));
    match outcome {
        Err(err) => match err.fault() {
            IoFault::Unavailable { message } => assert_eq!(message, "resource unavailable"),
            _ => panic!("wrong fault"),
        },
        Ok(_) => panic!("a failed read was handed on"),
    }
}

#[test]
fn malformed_footer_is_an_external_io_error() {
    match footer_outcome::<u32>(Err("bad magic".to_string())) {
        Err(ScanError::ExternalIo { fault: IoFault::MalformedFooter { message } }) => {
            assert_eq!(message, "bad magic")
        }
        _ => panic!("a malformed footer was not reported"),
    }
    match footer_outcome::<u32>(Ok(7)) {
        Ok(footer) => assert_eq!(footer, 7),
        Err(_) => panic!("a parsed footer was refused"),
    }
}
