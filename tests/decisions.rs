use flate_raw::engine::{
    classify, init_params, CodecState, Compression, Direction, Flush, StepReport, StepStatus, StreamError,
    MZ_BUF_ERROR, MZ_DATA_ERROR, MZ_FINISH, MZ_NO_FLUSH, MZ_OK, MZ_STREAM_END, MZ_SYNC_FLUSH,
};
use flate_raw::pull::{PullAction, PullAdapter, PullNext};
use flate_raw::push::{PushAction, PushAdapter, PushOp};

#[test]
fn status_codes_are_normalised() {
    assert_eq!(classify(Direction::Compress, MZ_OK), Ok(StepStatus::Progress));
    assert_eq!(classify(Direction::Decompress, MZ_BUF_ERROR), Ok(StepStatus::Progress));
    assert_eq!(classify(Direction::Decompress, MZ_STREAM_END), Ok(StepStatus::StreamEnd));
    assert_eq!(classify(Direction::Decompress, MZ_DATA_ERROR), Err(StreamError::Corrupt));
    assert_eq!(classify(Direction::Compress, MZ_DATA_ERROR), Err(StreamError::Corrupt));
    assert_eq!(classify(Direction::Compress, -2), Err(StreamError::Unexpected(-2)));
    assert_eq!(classify(Direction::Decompress, 2), Err(StreamError::Unexpected(2)));
}

#[test]
fn init_parameters() {
    let p = init_params(Direction::Compress, false, Compression::Best);
    assert_eq!((p.level, p.window_bits, p.method, p.mem_level, p.strategy), (9, 15, 8, 9, 0));
    let p = init_params(Direction::Compress, true, Compression::Fast);
    assert_eq!((p.level, p.window_bits), (1, -15));
    let p = init_params(Direction::Decompress, true, Compression::Best);
    assert_eq!((p.level, p.window_bits), (0, -15));
    assert_eq!(Compression::Store.level(), 0);
    assert_eq!(Compression::Default.level(), 6);
}

#[test]
fn flush_codes() {
    assert_eq!(Flush::NoFlush.code(), MZ_NO_FLUSH);
    assert_eq!(Flush::Sync.code(), MZ_SYNC_FLUSH);
    assert_eq!(Flush::Finish.code(), MZ_FINISH);
    assert_eq!(PushOp::Write.flush(), Flush::NoFlush);
    assert_eq!(PushOp::Flush.flush(), Flush::Sync);
    assert_eq!(PushOp::Finish.flush(), Flush::Finish);
}

#[test]
fn settle_computes_deltas() {
    let mut c = CodecState::new(Direction::Compress, MZ_OK);
    assert_eq!(
        c.settle(10, 10, 4, 3, MZ_OK),
        Ok(StepReport { consumed: 4, produced: 3, status: StepStatus::Progress })
    );
    assert_eq!(
        c.settle(10, 10, 10, 5, MZ_STREAM_END),
        Ok(StepReport { consumed: 6, produced: 2, status: StepStatus::StreamEnd })
    );
}

#[test]
fn settle_rejects_bad_totals() {
    let mut c = CodecState::new(Direction::Decompress, MZ_OK);
    assert_eq!(c.settle(2, 10, 3, 0, MZ_OK), Err(StreamError::BadCounts));
    assert_eq!(c.settle(10, 2, 0, 3, MZ_OK), Err(StreamError::BadCounts));
    assert_eq!(c.settle(10, 10, 5, 5, MZ_OK), Ok(StepReport { consumed: 5, produced: 5, status: StepStatus::Progress }));
    assert_eq!(c.settle(10, 10, 4, 5, MZ_OK), Err(StreamError::BadCounts));
}

#[test]
fn engine_released_once() {
    let mut c = CodecState::new(Direction::Compress, MZ_OK);
    assert!(c.is_initialized());
    assert!(c.release());
    assert!(!c.release());
    assert!(!c.is_initialized());
    let mut failed = CodecState::new(Direction::Decompress, -4);
    assert!(!failed.is_initialized());
    assert!(!failed.release());
}

#[test]
fn teardown_finishes_only_unfinished_writers() {
    let mut a = PushAdapter::new(CodecState::new(Direction::Compress, MZ_OK), Vec::new(), 8);
    assert!(a.needs_finish());
    a.start(PushOp::Finish);
    assert_eq!(a.next(), PushAction::Step { flush: Flush::Finish, with_input: false });
    a.after_step(0, &[1, 2], 0, 2, MZ_STREAM_END).unwrap();
    assert_eq!(a.next(), PushAction::Drain);
    assert_eq!(a.pending_bytes(), &[1u8, 2][..]);
    a.drained();
    assert_eq!(a.next(), PushAction::Complete(0));
    a.complete();
    assert!(!a.needs_finish());
    assert!(a.codec_state_mut().release());
    assert!(!a.codec_state_mut().release());
}

#[test]
fn write_drains_before_stepping() {
    let mut a = PushAdapter::new(CodecState::new(Direction::Compress, MZ_OK), Vec::new(), 4);
    a.start(PushOp::Write);
    a.after_step(5, &[9, 9, 9, 9], 3, 4, MZ_OK).unwrap();
    assert_eq!(a.next(), PushAction::Complete(3));
    a.complete();
    a.start(PushOp::Write);
    assert_eq!(a.next(), PushAction::Drain);
    a.drained();
    assert_eq!(a.next(), PushAction::Step { flush: Flush::NoFlush, with_input: true });
    assert_eq!(a.space(), 4);
}

#[test]
fn full_flush_step_asks_for_another() {
    let mut a = PushAdapter::new(CodecState::new(Direction::Compress, MZ_OK), Vec::new(), 2);
    a.start(PushOp::Flush);
    a.after_step(0, &[7, 7], 0, 2, MZ_OK).unwrap();
    assert_eq!(a.next(), PushAction::Drain);
    a.drained();
    assert_eq!(a.next(), PushAction::Step { flush: Flush::Sync, with_input: false });
    a.after_step(0, &[7], 0, 3, MZ_OK).unwrap();
    assert_eq!(a.next(), PushAction::Drain);
    a.drained();
    assert_eq!(a.next(), PushAction::FlushSink);
}

#[test]
fn output_length_must_match_totals() {
    let mut a = PushAdapter::new(CodecState::new(Direction::Compress, MZ_OK), Vec::new(), 8);
    a.start(PushOp::Write);
    assert_eq!(a.after_step(1, &[1, 2, 3], 1, 2, MZ_OK), Err(StreamError::BadCounts));
    assert!(a.pending_bytes().is_empty());
}

#[test]
fn decoder_write_side_reports_corruption() {
    let mut a = PushAdapter::new(CodecState::new(Direction::Decompress, MZ_OK), Vec::new(), 8);
    a.start(PushOp::Write);
    assert_eq!(a.after_step(3, &[], 0, 0, MZ_DATA_ERROR), Err(StreamError::Corrupt));
}

#[test]
fn pull_rounds() {
    let mut a = PullAdapter::new(CodecState::new(Direction::Decompress, MZ_OK), vec![0u8; 4]);
    assert_eq!(a.capacity(), 4);
    assert_eq!(a.begin(0), PullAction::Return(0));
    assert_eq!(a.begin(8), PullAction::Refill(4));
    a.refill(&[1, 2, 3]);
    assert_eq!(a.input(), &[1u8, 2, 3][..]);
    assert_eq!(a.flush_mode(), Flush::NoFlush);
    // nothing produced yet, source not exhausted: another round
    assert_eq!(a.after_step(8, 2, 0, MZ_OK), PullNext::Again);
    assert_eq!(a.begin(8), PullAction::Step);
    assert_eq!(a.input(), &[3u8][..]);
    assert_eq!(a.after_step(8, 3, 5, MZ_OK), PullNext::Return(5));
    assert_eq!(a.begin(8), PullAction::Refill(4));
    a.refill(&[]);
    assert_eq!(a.flush_mode(), Flush::Finish);
    assert_eq!(a.after_step(8, 3, 7, MZ_STREAM_END), PullNext::Return(2));
    assert_eq!(a.begin(8), PullAction::Return(0));
}

#[test]
fn decoder_source_dry_before_end_is_corrupt() {
    let mut a = PullAdapter::new(CodecState::new(Direction::Decompress, MZ_OK), vec![0u8; 4]);
    assert_eq!(a.begin(8), PullAction::Refill(4));
    a.refill(&[]);
    assert_eq!(a.after_step(8, 0, 0, MZ_BUF_ERROR), PullNext::Fail(StreamError::Corrupt));
    let mut b = PullAdapter::new(CodecState::new(Direction::Compress, MZ_OK), vec![0u8; 4]);
    assert_eq!(b.begin(8), PullAction::Refill(4));
    b.refill(&[]);
    assert_eq!(b.after_step(8, 0, 0, MZ_OK), PullNext::Return(0));
}

#[test]
fn compressor_data_error_is_corrupt() {
    let mut a = PullAdapter::new(CodecState::new(Direction::Compress, MZ_OK), vec![0u8; 4]);
    assert_eq!(a.begin(8), PullAction::Refill(4));
    a.refill(&[1]);
    assert_eq!(a.after_step(8, 0, 0, MZ_DATA_ERROR), PullNext::Fail(StreamError::Corrupt));
}

#[test]
fn decoder_finish_needs_stream_end() {
    let mut a = PushAdapter::new(CodecState::new(Direction::Decompress, MZ_OK), Vec::new(), 8);
    a.start(PushOp::Finish);
    // held-back output handed out without the end of the stream: step again
    a.after_step(0, &[5, 6], 0, 2, MZ_OK).unwrap();
    assert_eq!(a.next(), PushAction::Drain);
    a.drained();
    assert_eq!(a.next(), PushAction::Step { flush: Flush::Finish, with_input: false });
    // nothing more and no end: the input was truncated
    assert_eq!(a.after_step(0, &[], 0, 2, MZ_BUF_ERROR), Err(StreamError::Corrupt));
    assert!(a.needs_finish());
}

#[test]
fn compressor_finish_without_progress_stalls() {
    let mut a = PushAdapter::new(CodecState::new(Direction::Compress, MZ_OK), Vec::new(), 8);
    a.start(PushOp::Finish);
    assert_eq!(a.after_step(0, &[], 0, 0, MZ_OK), Err(StreamError::Stalled));
}

#[test]
fn decoder_flush_steps_while_output_comes() {
    let mut a = PushAdapter::new(CodecState::new(Direction::Decompress, MZ_OK), Vec::new(), 8);
    a.start(PushOp::Flush);
    a.after_step(0, &[1, 2, 3], 0, 3, MZ_OK).unwrap();
    assert_eq!(a.next(), PushAction::Drain);
    a.drained();
    assert_eq!(a.next(), PushAction::Step { flush: Flush::Sync, with_input: false });
    a.after_step(0, &[], 0, 3, MZ_BUF_ERROR).unwrap();
    assert_eq!(a.next(), PushAction::FlushSink);
    // a compressor's flush that did not fill its room is done
    let mut b = PushAdapter::new(CodecState::new(Direction::Compress, MZ_OK), Vec::new(), 8);
    b.start(PushOp::Flush);
    b.after_step(0, &[1, 2, 3], 0, 3, MZ_OK).unwrap();
    assert_eq!(b.next(), PushAction::Drain);
    b.drained();
    assert_eq!(b.next(), PushAction::FlushSink);
}

#[test]
fn write_makes_one_step() {
    let mut a = PushAdapter::new(CodecState::new(Direction::Decompress, MZ_OK), Vec::new(), 4);
    a.start(PushOp::Write);
    a.after_step(10, &[1, 2, 3, 4], 0, 4, MZ_OK).unwrap();
    // nothing consumed, output held: the write still ends after its one step
    assert_eq!(a.next(), PushAction::Complete(0));
    a.complete();
    a.start(PushOp::Write);
    assert_eq!(a.next(), PushAction::Drain);
    a.drained();
    assert_eq!(a.next(), PushAction::Step { flush: Flush::NoFlush, with_input: true });
    a.after_step(10, &[5], 6, 5, MZ_OK).unwrap();
    assert_eq!(a.next(), PushAction::Complete(6));
}

#[test]
fn initial_buffer_bytes_go_first() {
    let mut a = PushAdapter::new(CodecState::new(Direction::Compress, MZ_OK), vec![1u8, 2], 8);
    assert_eq!(a.pending_bytes(), &[1u8, 2][..]);
    a.start(PushOp::Write);
    assert_eq!(a.next(), PushAction::Drain);
    a.drained();
    assert_eq!(a.space(), 8);
    assert_eq!(a.next(), PushAction::Step { flush: Flush::NoFlush, with_input: true });
}

#[test]
fn staging_positions() {
    let mut a = PullAdapter::new(CodecState::new(Direction::Decompress, MZ_OK), vec![4u8, 3, 2, 1]);
    assert_eq!((a.position(), a.filled()), (0, 0));
    assert_eq!(a.staging(), &[4u8, 3, 2, 1][..]);
    assert_eq!(a.begin(8), PullAction::Refill(4));
    a.refill(&[7, 8, 9]);
    assert_eq!(a.after_step(8, 1, 0, MZ_OK), PullNext::Again);
    assert_eq!((a.position(), a.filled()), (1, 3));
    assert_eq!(a.staging(), &[7u8, 8, 9, 1][..]);
}
