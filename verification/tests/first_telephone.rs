use hypha::audio::Slot;
use hypha::commute::{
    commute_step, data_to_frames, ensure_ready, frames_to_data, is_over, opus_message,
    speex_message, CommuteStep, PlayAction, PlayEvent, PlayLoop, RecordAction, RecordEvent,
    RecordLoop, Resampler, PLAY_QUEUE, QUALITY, RECORD_QUEUE,
};
use hypha::frame::Frame;
use hypha::opus::{Decoded, Encoded, Encoder};
use hypha::peer::TaskEnd;
use hypha::queue::RingBuffer;
use hypha::speex::{Reply, Request};
use hypha::voice::{MAX_FRAME_SIZE, MAX_PACKET_SIZE};

fn frame<S>(left: S, right: S) -> Frame<S> {
    Frame { left, right }
}

fn reply<S: Copy>(request: Request, in_len: u32, out: &[S], rest: S) -> Reply<S> {
    let mut buffer = out.to_vec();
    buffer.resize(request.buffer_len, rest);
    Reply { error: 0, in_len, out_len: out.len() as u32 / 2, buffer }
}

#[test]
fn the_numbers_of_the_first_telephone() {
    assert_eq!(QUALITY, 5);
    assert_eq!(RECORD_QUEUE, 15360);
    assert_eq!(PLAY_QUEUE, 92160);
}

#[test]
fn what_the_first_telephone_says_of_its_libraries() {
    assert_eq!(opus_message("corrupted stream"), "opus error: corrupted stream");
    assert_eq!(speex_message("Unknown error."), "speex error: Unknown error.");
}

#[test]
fn an_encoder_needs_enough_samples() {
    let mut encoder = Encoder::<f32>::new(2, 0).unwrap();
    assert_eq!(ensure_ready(&encoder, 1), Err(String::from("not enough samples")));
    encoder.input().extend([0.0, 0.0]);
    assert_eq!(ensure_ready(&encoder, 1), Ok(()));
}

#[test]
fn samples_of_another_kind_give_no_frames() {
    assert_eq!(data_to_frames::<f32>(None, true), Vec::new());
    assert_eq!(data_to_frames(Some(&[1.0f32, 2.0][..]), true), vec![frame(1.0, 2.0)]);
    assert_eq!(data_to_frames(Some(&[1.0f32][..]), false), vec![frame(1.0, 1.0)]);
}

#[test]
fn one_sample_is_taken_ahead() {
    let mut queue = RingBuffer::new(8);
    queue.extend(&vec![frame(1, 2), frame(3, 4), frame(5, 6)]);
    let slots = frames_to_data(&mut queue, 2, true, &|left: u32, _: u32| left);
    assert_eq!(slots, vec![Slot::Sample(1), Slot::Sample(2)]);
    assert_eq!(queue.drain(), vec![frame(5, 6)]);
}

#[test]
fn places_for_which_there_is_nothing_are_silent() {
    let mut queue = RingBuffer::new(8);
    queue.extend(&vec![frame(1, 9), frame(3, 9)]);
    let slots = frames_to_data(&mut queue, 4, false, &|left: u32, _: u32| left);
    assert_eq!(
        slots,
        vec![Slot::Sample(1), Slot::Sample(3), Slot::Equilibrium, Slot::Equilibrium]
    );
    assert_eq!(queue.len(), 0);
}

#[test]
fn a_resampler_is_handed_its_samples() {
    let mut resampler = Resampler::<f32>::new(2, 48000, 48000, 0).unwrap();
    assert!(resampler.is_usable(4));
    let request = resampler.request(4);
    assert_eq!(request, Request { in_len: 2, out_len: 2, buffer_len: 5 });
    let (n, out) = resampler
        .resample(&[1.0, 2.0, 3.0, 4.0], reply(request, 1, &[5.0, 6.0], 0.0))
        .unwrap();
    assert_eq!(n, 1);
    assert_eq!(out, &[5.0, 6.0]);
    let failed = Reply { error: 4, in_len: 0, out_len: 0, buffer: vec![0.0; 5] };
    assert_eq!(resampler.resample(&[0.0; 4], failed).unwrap_err().code(), 4);
    assert_eq!(Resampler::<f32>::new(2, 1, 1, 2).err().map(|error| error.code()), Some(2));
}

#[test]
fn recording_goes_round() {
    let mut recorder = RecordLoop::<f32>::new(48000, 0, 0).unwrap();
    let frames: Vec<Frame<f32>> = (0..1000).map(|i| frame(i as f32, 0.5)).collect();
    assert!(matches!(recorder.step(RecordEvent::Woken(frames)), RecordAction::Resample));
    assert_eq!(recorder.waiting().len(), 2000);
    assert!(recorder.is_usable());
    let request = recorder.request();
    assert_eq!(request.in_len, 1000);
    let out: Vec<f32> = recorder.waiting()[..1998].to_vec();
    let answer = reply(request, 999, &out, 0.0);
    assert!(matches!(recorder.step(RecordEvent::Resampled(answer)), RecordAction::Encode));
    assert_eq!(recorder.waiting(), &[999.0, 0.5]);
    assert_eq!(recorder.ensure_ready(), Ok(()));
    assert_eq!(recorder.frame().len(), 1920);
    let mut buffer = vec![7, 8];
    buffer.resize(MAX_PACKET_SIZE, 0);
    match recorder.step(RecordEvent::Encoded(Encoded { size: 2, buffer })) {
        RecordAction::Write(bytes) => assert_eq!(bytes, vec![2, 0, 0, 0, 7, 8]),
        _ => panic!(),
    }
    assert!(matches!(recorder.step(RecordEvent::Written), RecordAction::Look));
    assert_eq!(recorder.ensure_ready(), Err(String::from("not enough samples")));
    assert!(matches!(recorder.step(RecordEvent::Looked(false)), RecordAction::Wait));
    assert!(matches!(recorder.step(RecordEvent::Looked(true)), RecordAction::Finish));
}

#[test]
fn recording_stops_where_a_library_fails() {
    match RecordLoop::<f32>::new(48000, 3, -1) {
        Err(RecordAction::ResampleFailed(error)) => assert_eq!(error.code(), 3),
        _ => panic!(),
    }
    match RecordLoop::<f32>::new(48000, 0, -1) {
        Err(RecordAction::EncodeFailed(error)) => assert_eq!(error.code(), -1),
        _ => panic!(),
    }
    let mut recorder = RecordLoop::<f32>::new(48000, 0, 0).unwrap();
    let answer = Reply { error: 2, in_len: 0, out_len: 0, buffer: vec![0.0] };
    match recorder.step(RecordEvent::Resampled(answer)) {
        RecordAction::ResampleFailed(error) => assert_eq!(error.code(), 2),
        _ => panic!(),
    }
    let frames = vec![frame(0.0f32, 0.0); 960];
    assert!(matches!(recorder.step(RecordEvent::Woken(frames)), RecordAction::Resample));
    let answer = reply(recorder.request(), 960, &[0.0; 1920], 0.0);
    assert!(matches!(recorder.step(RecordEvent::Resampled(answer)), RecordAction::Encode));
    let failed = Encoded { size: -5, buffer: vec![0; MAX_PACKET_SIZE] };
    match recorder.step(RecordEvent::Encoded(failed)) {
        RecordAction::EncodeFailed(error) => assert_eq!(error.code(), -5),
        _ => panic!(),
    }
}

#[test]
fn playing_goes_round() {
    let mut queue = RingBuffer::new(8);
    let mut player = PlayLoop::new(48000, 0, 0).unwrap();
    match player.step(PlayEvent::Header([2, 0, 0, 0]), &mut queue) {
        PlayAction::ReadBody(len) => assert_eq!(len, 2),
        _ => panic!(),
    }
    let action = player.step(PlayEvent::Body(vec![1, 2]), &mut queue);
    assert!(matches!(action, PlayAction::Decode));
    assert_eq!(player.waiting_packet(), &[1, 2]);
    let mut buffer = vec![10, 20, 30, 40];
    buffer.resize(MAX_FRAME_SIZE, 0);
    let action = player.step(PlayEvent::Decoded(Decoded { frames: 2, buffer }), &mut queue);
    assert!(matches!(action, PlayAction::Resample));
    assert_eq!(player.waiting(), &[10, 20, 30, 40]);
    assert!(player.is_usable());
    let answer = reply(player.request(), 2, &[10, 20, 30, 40], 0);
    let action = player.step(PlayEvent::Resampled(answer), &mut queue);
    assert!(matches!(action, PlayAction::Look));
    let action = player.step(PlayEvent::Looked(false), &mut queue);
    assert!(matches!(action, PlayAction::ReadHeader));
    let action = player.step(PlayEvent::Looked(true), &mut queue);
    assert!(matches!(action, PlayAction::Finish));
    assert_eq!(player.waiting(), &[30, 40]);
    assert_eq!(queue.drain(), vec![frame(10, 20), frame(30, 40)]);
}

#[test]
fn playing_stops_where_a_library_fails() {
    match PlayLoop::new(48000, -1, 3) {
        Err(PlayAction::DecodeFailed(error)) => assert_eq!(error.code(), -1),
        _ => panic!(),
    }
    match PlayLoop::new(48000, 0, 3) {
        Err(PlayAction::ResampleFailed(error)) => assert_eq!(error.code(), 3),
        _ => panic!(),
    }
    let mut queue = RingBuffer::new(8);
    let mut player = PlayLoop::new(48000, 0, 0).unwrap();
    let failed = Decoded { frames: -4, buffer: vec![0; MAX_FRAME_SIZE] };
    match player.step(PlayEvent::Decoded(failed), &mut queue) {
        PlayAction::DecodeFailed(error) => assert_eq!(error.code(), -4),
        _ => panic!(),
    }
    let answer = Reply { error: 1, in_len: 0, out_len: 0, buffer: vec![0] };
    match player.step(PlayEvent::Resampled(answer), &mut queue) {
        PlayAction::ResampleFailed(error) => assert_eq!(error.code(), 1),
        _ => panic!(),
    }
}

#[test]
fn a_call_ends_with_both_tasks() {
    let talk = commute_step(CommuteStep::Talk, TaskEnd::Finished);
    assert_eq!(talk, (CommuteStep::JoinRecord, false));
    let record = commute_step(CommuteStep::JoinRecord, TaskEnd::Failed);
    assert_eq!(record, (CommuteStep::JoinPlay, true));
    let play = commute_step(CommuteStep::JoinPlay, TaskEnd::Finished);
    assert_eq!(play, (CommuteStep::Done, false));
    let play = commute_step(CommuteStep::JoinPlay, TaskEnd::Failed);
    assert_eq!(play, (CommuteStep::Done, true));
}

#[test]
fn a_call_fails_where_something_cannot_be_waited_for() {
    let failed = (CommuteStep::Failed, false);
    let not_interrupted = (CommuteStep::NotInterrupted, false);
    assert_eq!(commute_step(CommuteStep::Talk, TaskEnd::Failed), not_interrupted);
    assert_eq!(commute_step(CommuteStep::NotInterrupted, TaskEnd::Finished), not_interrupted);
    assert_eq!(commute_step(CommuteStep::JoinRecord, TaskEnd::Aborted), failed);
    assert_eq!(commute_step(CommuteStep::JoinPlay, TaskEnd::Aborted), failed);
    assert_eq!(commute_step(CommuteStep::Failed, TaskEnd::Finished), failed);
    let done = (CommuteStep::Done, false);
    assert_eq!(commute_step(CommuteStep::Done, TaskEnd::Failed), done);
}

#[test]
fn the_tasks_stop_before_they_are_waited_for() {
    assert!(!is_over(CommuteStep::Talk));
    assert!(is_over(CommuteStep::JoinRecord));
    assert!(is_over(CommuteStep::JoinPlay));
    assert!(is_over(CommuteStep::Done));
    assert!(is_over(CommuteStep::Failed));
    assert!(!is_over(CommuteStep::NotInterrupted));
}
