use lakeapi2sql::batch::Batch;
use lakeapi2sql::batch::BatchColumn;
use lakeapi2sql::batch::Column;
use lakeapi2sql::error::LakeApi2SqlError;
use lakeapi2sql::orchestrate::BoundedQueue;
use lakeapi2sql::orchestrate::LoadAction;
use lakeapi2sql::orchestrate::LoadEvent;
use lakeapi2sql::orchestrate::LoadProgress;
use lakeapi2sql::orchestrate::load_step;
use lakeapi2sql::orchestrate::run_pipeline;
use lakeapi2sql::orchestrate::CHANNEL_CAPACITY;
use lakeapi2sql::types::CellValue;
use lakeapi2sql::types::ColumnType;

#[test]
fn bounded_queue_is_fifo_and_bounded() {
    let mut q: BoundedQueue<u64> = BoundedQueue::new(2);
    assert_eq!(q.len(), 0);
    assert!(q.try_send(10).is_ok());
    assert!(q.try_send(20).is_ok());
    // Full: the third item is handed back, which suspends a real producer.
    assert_eq!(q.try_send(30), Err(30));
    assert_eq!(q.try_recv(), Some(10));
    assert!(q.try_send(30).is_ok());
    assert_eq!(q.try_recv(), Some(20));
    assert_eq!(q.try_recv(), Some(30));
    assert_eq!(q.try_recv(), None);
}

#[test]
fn five_batches_through_capacity_two_suspend_at_the_third() {
    let items: Vec<u64> = vec![100, 200, 300, 400, 500];
    let (delivered, first_stall) = run_pipeline(items.clone(), CHANNEL_CAPACITY);
    // Everything arrives, in decode order.
    assert_eq!(delivered, items);
    // With two batches queued and the third fully decoded, the decode
    // domain suspends for the first time: at index 2, counting from zero.
    assert_eq!(first_stall, Some(2));
}

#[test]
fn a_load_within_capacity_never_suspends() {
    let items: Vec<u64> = vec![7, 8];
    let (delivered, first_stall) = run_pipeline(items.clone(), CHANNEL_CAPACITY);
    assert_eq!(delivered, items);
    assert_eq!(first_stall, None);
}

#[test]
fn tokio_bounded_channel_applies_the_same_backpressure() {
    // The real channel between the domains: capacity 2, third send refused
    // until the consumer drains.
    let (tx, mut rx) = tokio::sync::mpsc::channel::<u64>(2);
    assert!(tx.try_send(1).is_ok());
    assert!(tx.try_send(2).is_ok());
    assert!(tx.try_send(3).is_err());
    assert_eq!(rx.try_recv(), Ok(1));
    assert!(tx.try_send(3).is_ok());
    assert_eq!(rx.try_recv(), Ok(2));
    assert_eq!(rx.try_recv(), Ok(3));
}

fn progress_zero() -> LoadProgress {
    LoadProgress { batches_loaded: 0, batches_skipped: 0, rows_sent: 0 }
}

#[test]
fn a_decoded_batch_is_converted_and_transmitted() {
    let mut progress = progress_zero();
    let collist = vec![("x".to_string(), ColumnType::Int4)];
    let batch = Batch {
        num_rows: 2,
        columns: vec![BatchColumn {
            name: "x".to_string(),
            data: Column::Int32(vec![Some(5), None]),
        }],
    };
    match load_step(&mut progress, &collist, LoadEvent::BatchDecoded(batch)) {
        LoadAction::Transmit(rows) => {
            assert_eq!(rows.len(), 2);
            assert_eq!(rows[0].data[0], CellValue::I32(Some(5)));
            assert_eq!(rows[1].data[0], CellValue::I32(None));
        }
        _ => panic!("expected a transmit action"),
    }
    assert_eq!(progress.batches_loaded, 1);
    assert_eq!(progress.rows_sent, 2);
    assert_eq!(progress.batches_skipped, 0);
}

#[test]
fn an_unconvertible_batch_aborts_the_load() {
    let mut progress = progress_zero();
    let collist = vec![("x".to_string(), ColumnType::Bit)];
    let batch = Batch {
        num_rows: 1,
        columns: vec![BatchColumn {
            name: "x".to_string(),
            data: Column::Int32(vec![Some(5)]),
        }],
    };
    match load_step(&mut progress, &collist, LoadEvent::BatchDecoded(batch)) {
        LoadAction::Abort(LakeApi2SqlError::NotSupported { dtype, column_type }) => {
            assert_eq!(dtype, "Int32");
            assert_eq!(column_type, ColumnType::Bit);
        }
        _ => panic!("expected an abort action"),
    }
    assert_eq!(progress.batches_loaded, 0);
    assert_eq!(progress.rows_sent, 0);
}

#[test]
fn a_corrupt_batch_is_skipped_not_fatal() {
    let mut progress = progress_zero();
    let collist = vec![("x".to_string(), ColumnType::Int4)];
    match load_step(
        &mut progress,
        &collist,
        LoadEvent::BatchCorrupt("bad frame".to_string()),
    ) {
        LoadAction::Skip => {}
        _ => panic!("expected a skip action"),
    }
    assert_eq!(progress.batches_skipped, 1);
    assert_eq!(progress.batches_loaded, 0);
}

#[test]
fn the_end_of_the_stream_finishes_the_load() {
    let mut progress = progress_zero();
    let collist = vec![("x".to_string(), ColumnType::Int4)];
    match load_step(&mut progress, &collist, LoadEvent::StreamEnded) {
        LoadAction::Finish => {}
        _ => panic!("expected a finish action"),
    }
    assert_eq!(progress.batches_loaded, 0);
    assert_eq!(progress.batches_skipped, 0);
}
