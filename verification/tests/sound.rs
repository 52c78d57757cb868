use hypha::audio::{Capture, PlayStep, Playback, Recorded, Slot};
use hypha::frame::{
    double, frames_from_device, interleave, pair, samples_for_device, Frame,
};
use hypha::opus::{Decoded, Decoder, Encoded, Encoder, OpusError};
use hypha::packet::{header, is_greeting, packet_len, write_packet};
use hypha::ring::Ring;
use hypha::speex::{is_askable, make_request, Reply, Request, Resampler, SpeexError};
use hypha::voice::{
    deliver, Delivery, Receiver, RecvAction, RecvEvent, SendAction, SendEvent, Sender, CHANNELS,
    FRAME_SIZE, MAX_FRAME_SIZE, MAX_PACKET_SIZE, RESAMPLE_QUALITY, RING_SIZE, RING_THRESHOLD,
    SAMPLE_RATE,
};
use hypha::word::word_of;

fn frame<S>(left: S, right: S) -> Frame<S> {
    Frame { left, right }
}

fn packet(bytes: &[u8]) -> Encoded {
    let mut buffer = bytes.to_vec();
    buffer.resize(MAX_PACKET_SIZE, 0);
    Encoded { size: bytes.len() as i32, buffer }
}

fn decoded(samples: &[f32]) -> Decoded<f32> {
    let mut buffer = samples.to_vec();
    buffer.resize(MAX_FRAME_SIZE, 0.0);
    Decoded { frames: samples.len() as i32 / 2, buffer }
}

#[test]
fn the_numbers_of_a_stream() {
    assert_eq!(SAMPLE_RATE, 48000);
    assert_eq!(CHANNELS, 2);
    assert_eq!(FRAME_SIZE, 960);
    assert_eq!(MAX_FRAME_SIZE, 5760);
    assert_eq!(MAX_PACKET_SIZE, 4000);
    assert_eq!(RESAMPLE_QUALITY, 7);
    assert_eq!(RING_SIZE, 9600);
    assert_eq!(RING_THRESHOLD, 4800);
}

#[test]
fn pairing_undoes_interleaving() {
    let frames = vec![frame(1.0f32, 2.0), frame(3.0, 4.0)];
    let samples = interleave(&frames);
    assert_eq!(samples, vec![1.0, 2.0, 3.0, 4.0]);
    assert_eq!(pair(&samples), frames);
}

#[test]
fn one_channel_is_doubled() {
    assert_eq!(double(&[1.5f32, 2.5]), vec![frame(1.5, 1.5), frame(2.5, 2.5)]);
    assert_eq!(frames_from_device(&[1, 2], false), vec![frame(1, 1), frame(2, 2)]);
    assert_eq!(frames_from_device(&[1, 2], true), vec![frame(1, 2)]);
}

#[test]
fn two_ears_are_mixed_for_one_channel() {
    let frames = vec![frame(1.0f32, 2.0), frame(4.0, 6.0)];
    let mix = |left: f32, right: f32| (left + right) / 2.0;
    assert_eq!(samples_for_device(&frames, false, &mix), vec![1.5, 5.0]);
    assert_eq!(samples_for_device(&frames, true, &mix), vec![1.0, 2.0, 4.0, 6.0]);
}

#[test]
fn only_the_low_word_of_a_length_counts() {
    assert_eq!(word_of(0), 0);
    assert_eq!(word_of(4_294_967_295), u32::MAX);
    assert_eq!(word_of(4_294_967_296 + 7), 7);
}

#[test]
fn a_packet_is_read_as_it_was_written() {
    let wire = write_packet(&[7, 8, 9]);
    assert_eq!(wire, vec![3, 0, 0, 0, 7, 8, 9]);
    let front = [wire[0], wire[1], wire[2], wire[3]];
    assert_eq!(packet_len(&front), 3);
    assert_eq!(&wire[4..], &[7, 8, 9]);
}

#[test]
fn the_least_byte_of_a_length_goes_first() {
    assert_eq!(header(0x0102_0304), [4, 3, 2, 1]);
    assert_eq!(packet_len(&[4, 3, 2, 1]), 0x0102_0304);
    assert_eq!(packet_len(&[255, 255, 255, 255]), u32::MAX);
    assert_eq!(header(0), [0, 0, 0, 0]);
}

#[test]
fn a_stream_of_packets_is_read_as_it_was_written() {
    let packets = vec![vec![1u8, 2], vec![], vec![3; 300]];
    let mut wire = Vec::new();
    for bytes in &packets {
        wire.extend(write_packet(bytes));
    }
    let mut read = Vec::new();
    let mut rest = &wire[..];
    while !rest.is_empty() {
        let len = packet_len(&[rest[0], rest[1], rest[2], rest[3]]) as usize;
        read.push(rest[4..4 + len].to_vec());
        rest = &rest[4 + len..];
    }
    assert_eq!(read, packets);
}

#[test]
fn a_stream_starts_with_a_zero() {
    assert!(is_greeting(0));
    assert!(!is_greeting(1));
    assert!(!is_greeting(255));
}

#[test]
fn a_negative_number_is_an_opus_error() {
    assert_eq!(OpusError::new(0), Ok(()));
    assert_eq!(OpusError::new(20), Ok(()));
    let error = OpusError::new(-4).unwrap_err();
    assert_eq!(error.code(), -4);
    assert_eq!(error.message("corrupted stream"), "opus: corrupted stream");
}

#[test]
fn any_number_but_zero_is_a_speex_error() {
    assert_eq!(SpeexError::new(0), Ok(()));
    let error = SpeexError::new(3).unwrap_err();
    assert_eq!(error.code(), 3);
    assert_eq!(error.message("Invalid argument."), "speex: Invalid argument.");
    assert_eq!(SpeexError::new(-1).unwrap_err().code(), -1);
}

#[test]
fn an_encoder_makes_packets_of_its_oldest_samples() {
    let mut encoder = Encoder::<f32>::new(2, 0).unwrap();
    assert!(!encoder.ready(2));
    encoder.input().extend([1.0, 2.0, 3.0, 4.0, 5.0]);
    assert!(encoder.ready(2));
    assert_eq!(encoder.frame(2), &[1.0, 2.0, 3.0, 4.0]);
    assert_eq!(encoder.encode(2, 3, Encoded { size: 2, buffer: vec![9, 8, 0] }), Ok(()));
    assert_eq!(encoder.output(), &[9, 8]);
    assert_eq!(encoder.input(), &vec![5.0]);
}

#[test]
fn an_encoder_that_fails_keeps_its_samples() {
    assert_eq!(Encoder::<f32>::new(2, -1).err().map(|error| error.code()), Some(-1));
    let mut encoder = Encoder::<f32>::new(1, 0).unwrap();
    encoder.input().push(1.0);
    let end = encoder.encode(1, 2, Encoded { size: -2, buffer: vec![0, 0] });
    assert_eq!(end.unwrap_err().code(), -2);
    assert_eq!(encoder.input(), &vec![1.0]);
}

#[test]
fn a_decoder_gives_what_was_decoded() {
    assert_eq!(Decoder::<f32>::new(2, -7).err().map(|error| error.code()), Some(-7));
    let mut decoder = Decoder::<f32>::new(2, 0).unwrap();
    decoder.input().extend([1, 2, 3]);
    assert_eq!(decoder.waiting(), &[1, 2, 3]);
    let reply = Decoded { frames: 1, buffer: vec![0.5, 0.25, 0.0, 0.0] };
    assert_eq!(decoder.decode(4, reply), Ok(()));
    assert_eq!(decoder.output(), &[0.5, 0.25]);
    let reply = Decoded { frames: -4, buffer: vec![0.0; 4] };
    assert_eq!(decoder.decode(4, reply).unwrap_err().code(), -4);
}

#[test]
fn the_resampler_is_asked_for_room() {
    let request = make_request(960, 2, 48000, 44100);
    assert_eq!(request, Request { in_len: 480, out_len: 441, buffer_len: 883 });
    assert!(is_askable(960, 2, 48000, 44100));
    assert!(!is_askable(960, 0, 48000, 44100));
    assert!(!is_askable(960, 2, 0, 44100));
    assert!(!is_askable(usize::MAX, 2, 48000, 44100));
}

#[test]
fn a_resampler_drops_what_was_read() {
    let mut resampler = Resampler::<f32>::new(2, 48000, 48000, 0).unwrap();
    resampler.input().extend([1.0, 2.0, 3.0, 4.0]);
    assert!(resampler.is_usable());
    let request = resampler.request();
    assert_eq!(request, Request { in_len: 2, out_len: 2, buffer_len: 5 });
    let reply = Reply { error: 0, in_len: 1, out_len: 2, buffer: vec![5.0, 6.0, 7.0, 8.0, 9.0] };
    assert!(reply.is_answer(request));
    assert_eq!(resampler.resample(reply), Ok(()));
    assert_eq!(resampler.waiting(), &[3.0, 4.0]);
    assert_eq!(resampler.output(), &[5.0, 6.0, 7.0, 8.0]);
}

#[test]
fn a_resampler_that_fails_keeps_its_samples() {
    assert_eq!(Resampler::<f32>::new(2, 1, 1, 1).err().map(|error| error.code()), Some(1));
    let mut resampler = Resampler::<f32>::new(1, 48000, 24000, 0).unwrap();
    resampler.input().extend([1.0, 2.0]);
    let reply = Reply { error: 5, in_len: 0, out_len: 0, buffer: vec![0.0; 2] };
    assert!(reply.is_answer(resampler.request()));
    assert_eq!(resampler.resample(reply).unwrap_err().code(), 5);
    assert_eq!(resampler.waiting(), &[1.0, 2.0]);
}

#[test]
fn too_long_an_answer_is_none() {
    let request = Request { in_len: 2, out_len: 2, buffer_len: 5 };
    let good = Reply { error: 0, in_len: 2, out_len: 2, buffer: vec![0; 5] };
    assert!(good.is_answer(request));
    assert!(!Reply { error: 0, in_len: 3, out_len: 2, buffer: vec![0; 5] }.is_answer(request));
    assert!(!Reply { error: 0, in_len: 2, out_len: 3, buffer: vec![0; 5] }.is_answer(request));
    assert!(!Reply { error: 0, in_len: 2, out_len: 2, buffer: vec![0; 4] }.is_answer(request));
}

#[test]
fn samples_go_into_packets_in_order() {
    let mut sender = Sender::<f32>::new(0).unwrap();
    let frames: Vec<Frame<f32>> = (0..2000).map(|i| frame(i as f32, -(i as f32))).collect();
    assert!(matches!(sender.step(SendEvent::Woken(frames)), SendAction::Encode));
    assert_eq!(sender.frame().len(), 1920);
    assert_eq!(sender.frame()[2], 1.0);
    assert_eq!(sender.frame()[3], -1.0);
    match sender.step(SendEvent::Encoded(packet(&[1, 2]))) {
        SendAction::Write(bytes) => assert_eq!(bytes, vec![2, 0, 0, 0, 1, 2]),
        _ => panic!(),
    }
    assert!(matches!(sender.step(SendEvent::Written), SendAction::Encode));
    assert_eq!(sender.frame()[0], 960.0);
    match sender.step(SendEvent::Encoded(packet(&[3]))) {
        SendAction::Write(bytes) => assert_eq!(bytes, vec![1, 0, 0, 0, 3]),
        _ => panic!(),
    }
    assert!(matches!(sender.step(SendEvent::Written), SendAction::Wait));
}

#[test]
fn an_empty_packet_is_not_sent() {
    let mut sender = Sender::<f32>::new(0).unwrap();
    assert!(matches!(sender.absorb_samples(&[0.0; 1920]), SendAction::Encode));
    assert!(matches!(sender.step(SendEvent::Encoded(packet(&[]))), SendAction::Wait));
}

#[test]
fn too_few_samples_are_waited_for() {
    let mut sender = Sender::<f32>::new(0).unwrap();
    assert!(matches!(sender.absorb_samples(&[0.0; 1919]), SendAction::Wait));
    assert!(matches!(sender.absorb_samples(&[0.0; 1]), SendAction::Encode));
}

#[test]
fn sending_stops_where_the_encoder_fails() {
    assert_eq!(Sender::<f32>::new(-3).err().map(|error| error.code()), Some(-3));
    let mut sender = Sender::<f32>::new(0).unwrap();
    assert!(matches!(sender.absorb_samples(&[0.0; 1920]), SendAction::Encode));
    let reply = Encoded { size: -1, buffer: vec![0; MAX_PACKET_SIZE] };
    match sender.step(SendEvent::Encoded(reply)) {
        SendAction::Stop(error) => assert_eq!(error.code(), -1),
        _ => panic!(),
    }
}

#[test]
fn what_is_received_is_delivered() {
    let mut receiver = Receiver::<f32>::new(0).unwrap();
    match receiver.step(RecvEvent::Header([3, 0, 0, 0])) {
        RecvAction::ReadBody(len) => assert_eq!(len, 3),
        _ => panic!(),
    }
    assert!(matches!(receiver.step(RecvEvent::Body(vec![1, 2, 3])), RecvAction::Decode));
    assert_eq!(receiver.waiting(), &[1, 2, 3]);
    match receiver.step(RecvEvent::Decoded(decoded(&[0.5, 0.25, 1.0, -1.0]))) {
        RecvAction::Deliver(frames) => {
            assert_eq!(frames, vec![frame(0.5, 0.25), frame(1.0, -1.0)]);
        }
        _ => panic!(),
    }
    assert!(matches!(receiver.step(RecvEvent::Delivered), RecvAction::ReadHeader));
}

#[test]
fn receiving_stops_where_the_decoder_fails() {
    assert_eq!(Receiver::<f32>::new(-3).err().map(|error| error.code()), Some(-3));
    let mut receiver = Receiver::<f32>::new(0).unwrap();
    let reply = Decoded { frames: -4, buffer: vec![0.0; MAX_FRAME_SIZE] };
    match receiver.step(RecvEvent::Decoded(reply)) {
        RecvAction::Stop(error) => assert_eq!(error.code(), -4),
        _ => panic!(),
    }
}

#[test]
fn what_one_sends_the_other_receives() {
    let mut sender = Sender::<f32>::new(0).unwrap();
    assert!(matches!(sender.absorb_samples(&[0.0; 1920]), SendAction::Encode));
    let wire = match sender.step(SendEvent::Encoded(packet(&[11, 12, 13, 14]))) {
        SendAction::Write(bytes) => bytes,
        _ => panic!(),
    };
    let mut receiver = Receiver::<f32>::new(0).unwrap();
    let len = match receiver.step(RecvEvent::Header([wire[0], wire[1], wire[2], wire[3]])) {
        RecvAction::ReadBody(len) => len,
        _ => panic!(),
    };
    assert_eq!(len, wire.len() - 4);
    assert!(matches!(receiver.step(RecvEvent::Body(wire[4..].to_vec())), RecvAction::Decode));
    assert_eq!(receiver.waiting(), &[11, 12, 13, 14]);
}

#[test]
fn frames_are_skipped_above_the_threshold() {
    let mut ring = Ring::<Frame<f32>, RING_SIZE>::new();
    let mut producer = ring.producer().unwrap();
    let full = deliver(&mut producer, &mut ring, vec![frame(0.0, 0.0); 4800]);
    assert_eq!(full, Delivery::Stored { dropped: 0 });
    let more = deliver(&mut producer, &mut ring, vec![frame(0.0, 0.0); 1]);
    assert_eq!(more, Delivery::Stored { dropped: 0 });
    let most = deliver(&mut producer, &mut ring, vec![frame(0.0, 0.0); 1]);
    assert_eq!(most, Delivery::Skipped);
    assert_eq!(ring.len(), 4801);
}

#[test]
fn frames_that_find_no_room_are_dropped() {
    let mut ring = Ring::<Frame<f32>, RING_SIZE>::new();
    let mut producer = ring.producer().unwrap();
    let end = deliver(&mut producer, &mut ring, vec![frame(0.0, 0.0); 9601]);
    assert_eq!(end, Delivery::Stored { dropped: 2 });
    assert_eq!(ring.len(), 9599);
}

#[test]
fn what_a_microphone_brings_goes_into_the_ring() {
    let mut ring = Ring::<Frame<f32>, RING_SIZE>::new();
    let mut producer = ring.producer().unwrap();
    let mut consumer = ring.consumer().unwrap();
    let mut capture = Capture::<f32>::new(false, 48000, 0).unwrap();
    capture.feed(vec![1.0, 2.0, 3.0]);
    assert_eq!(capture.waiting(), &[1.0, 2.0, 3.0]);
    assert!(capture.is_usable());
    assert_eq!(capture.request(), Request { in_len: 3, out_len: 4, buffer_len: 4 });
    let reply = Reply { error: 0, in_len: 2, out_len: 2, buffer: vec![1.0, 2.0, 0.0, 0.0] };
    let end = capture.record(reply, false, &mut producer, &mut ring);
    assert_eq!(end, Ok(Recorded::Stored { dropped: 0 }));
    assert_eq!(capture.waiting(), &[3.0]);
    assert_eq!(consumer.drain(&mut ring), vec![frame(1.0, 1.0), frame(2.0, 2.0)]);
}

#[test]
fn a_muted_microphone_records_nothing() {
    let mut ring = Ring::<Frame<f32>, RING_SIZE>::new();
    let mut producer = ring.producer().unwrap();
    let mut capture = Capture::<f32>::new(true, 48000, 0).unwrap();
    capture.feed(vec![1.0, 2.0]);
    let reply = Reply { error: 0, in_len: 1, out_len: 1, buffer: vec![1.0, 2.0, 0.0] };
    let end = capture.record(reply, true, &mut producer, &mut ring);
    assert_eq!(end, Ok(Recorded::Muted));
    assert!(ring.is_empty());
    assert!(capture.waiting().is_empty());
}

#[test]
fn a_microphone_whose_resampler_fails_keeps_its_samples() {
    assert!(Capture::<f32>::new(true, 48000, 2).is_err());
    let mut capture = Capture::<f32>::new(true, 48000, 0).unwrap();
    capture.feed(vec![1.0, 2.0]);
    let reply = Reply { error: 4, in_len: 0, out_len: 0, buffer: vec![0.0; 3] };
    assert_eq!(capture.resampled(reply).unwrap_err().code(), 4);
    assert_eq!(capture.waiting(), &[1.0, 2.0]);
}

#[test]
fn a_speaker_plays_silence_where_nothing_waits() {
    let mut ring = Ring::<Frame<f32>, RING_SIZE>::new();
    let mut consumer = ring.consumer().unwrap();
    let mut playback = Playback::<f32>::new(true, 48000, 0).unwrap();
    let mut slots = Vec::new();
    let mix = |left: f32, right: f32| (left + right) / 2.0;
    let step = playback.advance(&mut slots, 3, &mut consumer, &mut ring, &mix);
    assert_eq!(step, PlayStep::Done);
    assert_eq!(slots, vec![Slot::Equilibrium; 3]);
}

#[test]
fn a_speaker_plays_what_waits_and_keeps_the_rest() {
    let mut ring = Ring::<Frame<f32>, RING_SIZE>::new();
    let mut producer = ring.producer().unwrap();
    let mut consumer = ring.consumer().unwrap();
    assert_eq!(producer.extend(&mut ring, vec![frame(1.0, 3.0), frame(5.0, 7.0)]), Ok(()));
    let mut playback = Playback::<f32>::new(false, 48000, 0).unwrap();
    let mix = |left: f32, right: f32| (left + right) / 2.0;
    let mut slots = Vec::new();
    let step = playback.advance(&mut slots, 1, &mut consumer, &mut ring, &mix);
    assert_eq!(step, PlayStep::Resample);
    assert_eq!(playback.waiting(), &[2.0, 6.0]);
    assert!(playback.is_usable());
    assert_eq!(playback.request(), Request { in_len: 2, out_len: 3, buffer_len: 3 });
    let reply = Reply { error: 0, in_len: 2, out_len: 2, buffer: vec![2.0, 6.0, 0.0] };
    assert_eq!(playback.resampled(reply), Ok(()));
    let step = playback.advance(&mut slots, 1, &mut consumer, &mut ring, &mix);
    assert_eq!(step, PlayStep::Done);
    assert_eq!(slots, vec![Slot::Sample(2.0)]);
    let mut slots = Vec::new();
    let step = playback.advance(&mut slots, 2, &mut consumer, &mut ring, &mix);
    assert_eq!(step, PlayStep::Done);
    assert_eq!(slots, vec![Slot::Sample(6.0), Slot::Equilibrium]);
}

#[test]
fn some_frames_more_than_needed_are_asked_for() {
    let stereo = Playback::<f32>::new(true, 44100, 0).unwrap();
    assert_eq!(stereo.wanted(0), 32);
    assert_eq!(stereo.wanted(882), 480 + 32);
    let mono = Playback::<f32>::new(false, 96000, 0).unwrap();
    assert_eq!(mono.wanted(960), 480 + 32);
}

#[test]
fn a_deafened_speaker_is_silent() {
    assert_eq!(Playback::<f32>::deafened(false, 4), None);
    assert_eq!(Playback::<f32>::deafened(true, 4), Some(vec![Slot::Equilibrium; 4]));
}

#[test]
fn a_speaker_without_a_resampler_is_none() {
    assert_eq!(Playback::<f32>::new(true, 48000, 1).err().map(|error| error.code()), Some(1));
    assert_eq!(Playback::<f32>::new(true, 0, 3).err().map(|error| error.code()), Some(3));
    let mut playback = Playback::<f32>::new(true, 48000, 0).unwrap();
    playback.feed(&vec![frame(1.0, 2.0)], &|left: f32, _: f32| left);
    let reply = Reply { error: 3, in_len: 0, out_len: 0, buffer: vec![0.0; 3] };
    assert_eq!(playback.resampled(reply).unwrap_err().code(), 3);
    assert_eq!(playback.waiting(), &[1.0, 2.0]);
}

#[test]
fn the_next_time_goes_on_behind_what_was_played() {
    let mut ring = Ring::<Frame<f32>, RING_SIZE>::new();
    let mut producer = ring.producer().unwrap();
    let mut consumer = ring.consumer().unwrap();
    let mut playback = Playback::<f32>::new(false, 48000, 0).unwrap();
    let mix = |left: f32, _: f32| left;
    let mut heard = Vec::new();
    let mut made = Vec::new();
    for turn in 0..4 {
        let frames = (0..40).map(|i| frame((100 * turn + i) as f32, 0.0)).collect();
        assert_eq!(producer.extend(&mut ring, frames), Ok(()));
        let mut slots = Vec::new();
        while playback.advance(&mut slots, 37, &mut consumer, &mut ring, &mix)
            == PlayStep::Resample
        {
            let request = playback.request();
            let mut buffer = playback.waiting().to_vec();
            made.extend(buffer.clone());
            let len = buffer.len() as u32;
            buffer.resize(request.buffer_len, 0.0);
            let reply = Reply { error: 0, in_len: len, out_len: len, buffer };
            assert!(reply.is_answer(request));
            assert_eq!(playback.resampled(reply), Ok(()));
        }
        assert_eq!(slots.len(), 37);
        heard.extend(slots);
    }
    let expected: Vec<Slot<f32>> = made[..148].iter().map(|sample| Slot::Sample(*sample)).collect();
    assert_eq!(heard, expected);
}
