use gmanim::video_backend::pipeline::{
    run_pipeline, BlockQueue, FrameDoneMessage, FrameMessage, MemorySink, PipelineError,
    VideoBackendController, Worker, WorkerAction,
};
use gmanim::video_backend::{ColorOrder, VideoConfig, BLOCK_SIZE};

fn marked_frames(n: usize, frame_len: usize) -> Vec<Vec<u8>> {
    // frames with distinct marker bytes so reordering would be visible
    (0..n).map(|i| vec![(i % 256) as u8; frame_len]).collect()
}

fn expected_bytes(frames: &[Vec<u8>]) -> Vec<u8> {
    let mut out = Vec::new();
    for f in frames {
        out.extend_from_slice(f);
    }
    out
}

#[test]
fn order_preserved_block_size_one() {
    let frames = marked_frames(5, 3);
    let expected = expected_bytes(&frames);
    let (sink, _q, _w, result) = run_pipeline(frames, 1, 3, None);
    assert!(result.is_ok());
    assert_eq!(sink.bytes().as_slice(), expected.as_slice());
    assert_eq!(sink.frames_accepted(), 5);
}

#[test]
fn order_preserved_block_size_equal_to_n() {
    let frames = marked_frames(6, 4);
    let expected = expected_bytes(&frames);
    let (sink, _q, _w, result) = run_pipeline(frames, 6, 4, None);
    assert!(result.is_ok());
    assert_eq!(sink.bytes().as_slice(), expected.as_slice());
    assert_eq!(sink.frames_accepted(), 6);
}

#[test]
fn order_preserved_block_size_not_dividing() {
    let frames = marked_frames(7, 2);
    let expected = expected_bytes(&frames);
    let (sink, _q, _w, result) = run_pipeline(frames, 3, 2, None);
    assert!(result.is_ok());
    assert_eq!(sink.bytes().as_slice(), expected.as_slice());
    assert_eq!(sink.frames_accepted(), 7);
}

#[test]
fn no_frame_loss_with_partial_final_block() {
    // 10 frames of 8 bytes with block size 4: the last block holds only 2
    // frames and must still be flushed by end()
    let frames = marked_frames(10, 8);
    let (sink, _q, worker, result) = run_pipeline(frames, 4, 8, None);
    assert!(result.is_ok());
    assert_eq!(sink.frames_accepted(), 10);
    assert_eq!(sink.bytes().len(), 10 * 8);
    assert_eq!(worker.blocks_delivered(), 3);
}

#[test]
fn example_scenario_601_frames() {
    // a 4x4 RGBA video: 64 bytes per frame; 601 frames in blocks of 240
    // give three blocks of 240, 240 and 121 frames
    let config = VideoConfig {
        filename: "output.mp4".to_owned(),
        framerate: 30,
        output_width: 4,
        output_height: 4,
        color_order: ColorOrder::Rgba,
    };
    assert!(config.validate().is_ok());
    assert_eq!(config.frame_len(), 64);
    let frames = marked_frames(601, 64);
    let expected = expected_bytes(&frames);
    let (sink, queue, worker, result) = run_pipeline(frames, BLOCK_SIZE, 64, None);
    assert!(result.is_ok());
    assert_eq!(worker.blocks_delivered(), 3);
    assert_eq!(sink.frames_accepted(), 601);
    assert_eq!(sink.bytes().len(), 601 * 64);
    assert_eq!(sink.bytes().as_slice(), expected.as_slice());
    // the end-of-stream drain popped each block once, plus one final
    // attempt that found the queue empty
    assert_eq!(queue.pop_attempts(), 4);
}

#[test]
fn failure_isolation_after_k_frames() {
    // the sink accepts 4 frames and then fails: the run reports the write
    // error, exactly the first 4 frames arrive, and only one further write
    // is ever attempted
    let frames = marked_frames(10, 6);
    let expected = expected_bytes(&frames[..4]);
    let (sink, _q, worker, result) = run_pipeline(frames, 3, 6, Some(4));
    assert_eq!(result, Err(PipelineError::SinkWrite));
    assert_eq!(sink.frames_accepted(), 4);
    assert_eq!(sink.bytes().as_slice(), expected.as_slice());
    assert_eq!(sink.writes_attempted(), 5);
    assert_eq!(worker.error(), Some(PipelineError::SinkWrite));
}

#[test]
fn wrong_frame_length_is_rejected() {
    let mut controller = VideoBackendController::new(4, 8);
    let mut queue = BlockQueue::new();
    let r = controller.write_frame(vec![0u8; 7], &mut queue);
    assert_eq!(r, Err(PipelineError::WrongFrameLength));
    let r = controller.write_frame(vec![0u8; 8], &mut queue);
    assert_eq!(r, Ok(None));
}

#[test]
fn full_block_emits_wake_signal() {
    let mut controller = VideoBackendController::new(2, 1);
    let mut queue = BlockQueue::new();
    assert_eq!(controller.write_frame(vec![1u8], &mut queue), Ok(None));
    assert_eq!(
        controller.write_frame(vec![2u8], &mut queue),
        Ok(Some(FrameMessage::Frame))
    );
    assert_eq!(queue.len(), 1);
}

#[test]
fn sleeping_worker_never_polls_the_queue() {
    // instrumented queue: pop attempts are counted, so a busy-waiting
    // worker would be visible
    let mut worker = Worker::new();
    let mut queue = BlockQueue::new();
    assert_eq!(worker.next_action(), WorkerAction::PopBlock);
    let got = queue.pop_block();
    assert!(got.is_none());
    worker.on_pop(false);
    assert_eq!(queue.pop_attempts(), 1);
    // while sleeping, the worker's only action is to await a signal; it
    // issues zero pop attempts
    for _ in 0..5 {
        assert_eq!(worker.next_action(), WorkerAction::AwaitSignal);
    }
    assert_eq!(queue.pop_attempts(), 1);
    // a wake signal resumes popping
    worker.on_signal(FrameMessage::Frame);
    assert_eq!(worker.next_action(), WorkerAction::PopBlock);
}

#[test]
fn end_of_stream_drains_then_exits() {
    let mut worker = Worker::new();
    let mut queue = BlockQueue::new();
    let mut sink = MemorySink::new();
    queue.push_block(vec![vec![9u8, 9, 9]]);
    // the worker sleeps on an empty pop, then receives the end-of-stream
    worker.on_pop(false);
    worker.on_signal(FrameMessage::End);
    worker.drain(&mut queue, &mut sink);
    assert_eq!(worker.next_action(), WorkerAction::Exit);
    assert!(worker.error().is_none());
    assert_eq!(sink.bytes().as_slice(), &[9u8, 9, 9]);
    assert_eq!(queue.len(), 0);
}

#[test]
fn closed_channel_still_drains_and_exits() {
    let mut worker = Worker::new();
    worker.on_pop(false);
    worker.on_channel_closed();
    assert_eq!(worker.next_action(), WorkerAction::PopBlock);
    worker.on_pop(false);
    assert_eq!(worker.next_action(), WorkerAction::Exit);
}

#[test]
fn write_failure_report_stops_worker() {
    let mut worker = Worker::new();
    worker.on_write_result(FrameDoneMessage::Written);
    assert!(worker.error().is_none());
    worker.on_write_result(FrameDoneMessage::Failed);
    assert_eq!(worker.error(), Some(PipelineError::SinkWrite));
    assert_eq!(worker.next_action(), WorkerAction::Exit);
}

#[test]
fn double_end_signal_is_harmless() {
    // ending an already-draining worker again must not wedge or panic
    let mut worker = Worker::new();
    worker.on_pop(false);
    worker.on_signal(FrameMessage::End);
    let mut queue = BlockQueue::new();
    let mut sink = MemorySink::new();
    worker.drain(&mut queue, &mut sink);
    assert_eq!(worker.next_action(), WorkerAction::Exit);
}
