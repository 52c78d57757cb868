use hypha::audio::{Capture, PlayStep, Playback, Recorded, Slot};
use hypha::frame::Frame;
use hypha::handle::{ThreadBound, ToggleHandle};
use hypha::peer::{
    accept, broken_message, join, next_recv_phase, next_send_phase, AcceptStep, Incoming,
    JoinStep, Peer, PeerError, PhaseEnd, RecvPhase, SendPhase, TaskEnd,
};
use hypha::phone::{check_greeting, Connection};
use hypha::queue::RingBuffer;
use hypha::speex::Reply;
use hypha::voice::Delivery;

fn frame<S>(left: S, right: S) -> Frame<S> {
    Frame { left, right }
}

#[test]
fn a_switch_starts_off() {
    let mut switch = ToggleHandle::new();
    assert!(!switch.is_on());
    switch.toggle();
    assert!(switch.is_on());
    switch.toggle();
    assert!(!switch.is_on());
}

#[test]
fn a_switch_is_on_after_an_odd_number_of_turns() {
    let mut switch = ToggleHandle::new();
    for turns in 1..10 {
        switch.toggle();
        assert_eq!(switch.is_on(), turns % 2 == 1);
    }
}

#[test]
fn a_bound_value_can_be_used() {
    let bound = ThreadBound::new(String::from("abc"));
    assert_eq!(bound.len(), 3);
    assert_eq!(*bound.clone(), "abc");
}

#[test]
fn a_queue_keeps_the_newest() {
    let mut queue = RingBuffer::new(3);
    assert_eq!(queue.capacity(), 3);
    assert_eq!(queue.len(), 0);
    queue.extend(&vec![frame(1, 2), frame(3, 4)]);
    assert_eq!(queue.len(), 2);
    queue.extend(&vec![frame(5, 6), frame(7, 8)]);
    assert_eq!(queue.len(), 3);
    assert_eq!(queue.take(1), vec![frame(3, 4)]);
    assert_eq!(queue.drain(), vec![frame(5, 6), frame(7, 8)]);
    assert_eq!(queue.take(4), Vec::new());
    assert_eq!(queue.len(), 0);
}

#[test]
fn a_queue_that_is_given_too_much_at_once_keeps_the_newest() {
    let mut queue = RingBuffer::new(2);
    queue.extend(&(0..10).map(|i| frame(i, i)).collect());
    assert_eq!(queue.drain(), vec![frame(8, 8), frame(9, 9)]);
}

#[test]
fn one_waits_again_after_one_who_was_refused() {
    assert_eq!(accept(Incoming::Closed), AcceptStep::Fail);
    assert_eq!(accept(Incoming::Refused), AcceptStep::Retry);
    assert_eq!(accept(Incoming::Connecting), AcceptStep::Connect);
}

#[test]
fn a_stream_takes_its_two_ends() {
    let mut peer = Peer::<f32>::new();
    let (consumer, producer) = peer.open_stream().unwrap();
    assert_eq!(peer.open_stream().err(), Some(PeerError::NoConsumer));
    peer.close_send(consumer);
    assert_eq!(peer.open_stream().err(), Some(PeerError::NoProducer));
    peer.close_receive(producer);
    assert!(peer.open_stream().is_ok());
}

#[test]
fn a_stream_that_starts_wrongly_is_refused() {
    let mut peer = Peer::<f32>::new();
    assert_eq!(peer.accept_stream(1).err(), Some(PeerError::Broken));
    assert!(peer.accept_stream(0).is_ok());
    assert_eq!(peer.accept_stream(0).err(), Some(PeerError::NoConsumer));
    assert_eq!(broken_message(), "connection is broken");
    assert_eq!(check_greeting(0), Ok(()));
    assert_eq!(check_greeting(7), Err(PeerError::Broken));
}

#[test]
fn a_microphone_and_a_speaker_take_one_end_each() {
    let mut peer = Peer::<f32>::new();
    let producer = peer.record_stream().unwrap();
    assert_eq!(peer.record_stream().err(), Some(PeerError::NoProducer));
    let consumer = peer.play_stream().unwrap();
    assert_eq!(peer.play_stream().err(), Some(PeerError::NoConsumer));
    peer.close_record(producer);
    peer.close_play(consumer);
    assert!(peer.record_stream().is_ok());
    assert!(peer.play_stream().is_ok());
}

#[test]
fn what_is_recorded_is_collected() {
    let mut peer = Peer::<f32>::new();
    let mut producer = peer.record_stream().unwrap();
    let (mut consumer, _) = peer.open_stream().unwrap();
    let mut capture = Capture::<f32>::new(true, 48000, 0).unwrap();
    capture.feed(vec![1.0, 2.0]);
    assert!(!peer.has_recorded(&consumer));
    let reply = Reply { error: 0, in_len: 1, out_len: 1, buffer: vec![1.0, 2.0, 0.0] };
    let end = peer.record(&mut capture, reply, &mut producer);
    assert_eq!(end, Ok(Recorded::Stored { dropped: 0 }));
    assert!(peer.take_wake());
    assert!(!peer.take_wake());
    assert!(peer.has_recorded(&consumer));
    assert_eq!(peer.collect(&mut consumer), vec![frame(1.0, 2.0)]);
    assert!(!peer.has_recorded(&consumer));
}

#[test]
fn nothing_is_recorded_while_muted() {
    let mut peer = Peer::<f32>::new();
    let mut producer = peer.record_stream().unwrap();
    let (mut consumer, _) = peer.open_stream().unwrap();
    assert!(!peer.has_recorded(&consumer));
    let mut capture = Capture::<f32>::new(true, 48000, 0).unwrap();
    capture.feed(vec![1.0, 2.0]);
    peer.mute_handle().toggle();
    let reply = Reply { error: 0, in_len: 1, out_len: 1, buffer: vec![1.0, 2.0, 0.0] };
    assert_eq!(peer.record(&mut capture, reply, &mut producer), Ok(Recorded::Muted));
    assert!(!peer.take_wake());
    assert_eq!(peer.collect(&mut consumer), Vec::new());
    capture.feed(vec![1.0, 2.0]);
    let reply = Reply { error: 9, in_len: 0, out_len: 0, buffer: vec![0.0; 3] };
    assert_eq!(peer.record(&mut capture, reply, &mut producer).unwrap_err().code(), 9);
}

#[test]
fn what_is_delivered_is_played() {
    let mut peer = Peer::<f32>::new();
    let (_, mut producer) = peer.open_stream().unwrap();
    let mut consumer = peer.play_stream().unwrap();
    let mut playback = Playback::<f32>::new(true, 48000, 0).unwrap();
    let delivery = peer.deliver(&mut producer, vec![frame(1.0, 2.0)]);
    assert_eq!(delivery, Delivery::Stored { dropped: 0 });
    let mix = |left: f32, right: f32| (left + right) / 2.0;
    let mut slots = Vec::new();
    let step = peer.play(&mut playback, &mut slots, 2, &mut consumer, &mix);
    assert_eq!(step, PlayStep::Resample);
    assert_eq!(playback.waiting(), &[1.0, 2.0]);
    let reply = Reply { error: 0, in_len: 1, out_len: 1, buffer: vec![1.0, 2.0, 0.0] };
    assert_eq!(playback.resampled(reply), Ok(()));
    let step = peer.play(&mut playback, &mut slots, 2, &mut consumer, &mix);
    assert_eq!(step, PlayStep::Done);
    assert_eq!(slots, vec![Slot::Sample(1.0), Slot::Sample(2.0)]);
}

#[test]
fn nothing_is_heard_while_deafened() {
    let mut peer = Peer::<f32>::new();
    assert_eq!(peer.play_deafened(2), None);
    peer.deafen_handle().toggle();
    assert_eq!(peer.play_deafened(2), Some(vec![Slot::Equilibrium; 2]));
}

#[test]
fn both_tasks_are_waited_for() {
    assert_eq!(join(JoinStep::Send, TaskEnd::Finished), (JoinStep::Receive, false));
    assert_eq!(join(JoinStep::Send, TaskEnd::Failed), (JoinStep::Receive, true));
    assert_eq!(join(JoinStep::Send, TaskEnd::Aborted), (JoinStep::Failed, false));
    assert_eq!(join(JoinStep::Receive, TaskEnd::Finished), (JoinStep::Joined, false));
    assert_eq!(join(JoinStep::Receive, TaskEnd::Failed), (JoinStep::Joined, true));
    assert_eq!(join(JoinStep::Receive, TaskEnd::Aborted), (JoinStep::Failed, false));
    assert_eq!(join(JoinStep::Joined, TaskEnd::Failed), (JoinStep::Joined, false));
    assert_eq!(join(JoinStep::Failed, TaskEnd::Finished), (JoinStep::Failed, false));
}

#[test]
fn the_other_side_is_told_however_sending_ends() {
    for end in [PhaseEnd::Done, PhaseEnd::Failed, PhaseEnd::Closed] {
        assert_eq!(next_send_phase(SendPhase::Running, end), SendPhase::Finishing);
    }
    assert_eq!(next_send_phase(SendPhase::Starting, PhaseEnd::Done), SendPhase::Running);
    assert_eq!(next_send_phase(SendPhase::Finishing, PhaseEnd::Done), SendPhase::Stopping);
    let finished = SendPhase::Ended(TaskEnd::Finished);
    let failed = SendPhase::Ended(TaskEnd::Failed);
    assert_eq!(next_send_phase(SendPhase::Stopping, PhaseEnd::Done), finished);
    assert_eq!(next_send_phase(SendPhase::Starting, PhaseEnd::Failed), failed);
    assert_eq!(next_send_phase(SendPhase::Finishing, PhaseEnd::Failed), failed);
    assert_eq!(next_send_phase(SendPhase::Stopping, PhaseEnd::Failed), failed);
    assert_eq!(next_send_phase(finished, PhaseEnd::Failed), finished);
}

#[test]
fn receiving_fails_only_at_the_start() {
    let finished = RecvPhase::Ended(TaskEnd::Finished);
    let failed = RecvPhase::Ended(TaskEnd::Failed);
    assert_eq!(next_recv_phase(RecvPhase::Starting, PhaseEnd::Done), RecvPhase::Running);
    assert_eq!(next_recv_phase(RecvPhase::Starting, PhaseEnd::Failed), failed);
    assert_eq!(next_recv_phase(RecvPhase::Running, PhaseEnd::Failed), finished);
    assert_eq!(next_recv_phase(RecvPhase::Running, PhaseEnd::Closed), finished);
    assert_eq!(next_recv_phase(failed, PhaseEnd::Done), failed);
}

#[test]
fn a_telephone_drops_the_oldest_frames() {
    let mut call = Connection::new();
    call.deliver(&(0..5000).map(|i| frame(i, i)).collect());
    assert_eq!(call.play_level(), (4800, 4800));
    assert_eq!(call.rec_level(), (0, 4800));
    let mut playback = Playback::<u32>::new(true, 48000, 0).unwrap();
    let mut slots = Vec::new();
    let step = call.play(&mut playback, &mut slots, 4, &|left: u32, _: u32| left);
    assert_eq!(step, PlayStep::Resample);
    assert_eq!(playback.waiting().len(), 2 * 34);
    assert_eq!(playback.waiting()[0], 200);
    assert_eq!(call.play_level(), (4766, 4800));
}

#[test]
fn a_telephone_is_silent_where_nothing_was_received() {
    let mut call = Connection::new();
    let mut playback = Playback::<u32>::new(true, 48000, 0).unwrap();
    let mut slots = Vec::new();
    let step = call.play(&mut playback, &mut slots, 2, &|left: u32, _: u32| left);
    assert_eq!(step, PlayStep::Done);
    assert_eq!(slots, vec![Slot::Equilibrium; 2]);
}

#[test]
fn a_telephone_collects_what_was_recorded() {
    let mut call = Connection::new();
    let mut capture = Capture::<u32>::new(false, 48000, 0).unwrap();
    capture.feed(vec![1, 2]);
    let reply = Reply { error: 0, in_len: 2, out_len: 2, buffer: vec![1, 2, 0] };
    assert_eq!(call.record(&mut capture, reply), Ok(()));
    assert_eq!(call.rec_level(), (2, 4800));
    assert_eq!(call.collect(), vec![frame(1, 1), frame(2, 2)]);
    assert_eq!(call.collect(), Vec::new());
    let reply = Reply { error: 2, in_len: 0, out_len: 0, buffer: vec![0] };
    assert_eq!(call.record(&mut capture, reply).unwrap_err().code(), 2);
}
