use mesh::audio::capture_step;
use mesh::audio::downmix_i16;
use mesh::audio::input_device_names;
use mesh::audio::interleave;
use mesh::audio::output_device_names;
use mesh::audio::output_frames;
use mesh::audio::output_sample;
use mesh::audio::packet_action;
use mesh::audio::pick_device;
use mesh::audio::receive_packet;
use mesh::audio::setup_outcome;
use mesh::audio::setup_step;
use mesh::audio::CaptureAction;
use mesh::audio::CaptureEvent;
use mesh::audio::DeviceConfig;
use mesh::audio::Direction;
use mesh::audio::FrameAssembler;
use mesh::audio::OutputFeed;
use mesh::audio::PacketAction;
use mesh::audio::PlaybackBuffer;
use mesh::audio::Resampler;
use mesh::audio::SampleFormat;
use mesh::audio::SetupEvent;
use mesh::audio::StreamSetup;
use mesh::audio::FRAME_MILLIS;
use mesh::audio::FRAME_SAMPLES;
use mesh::audio::SAMPLE_RATE;

fn ramp(from: i16, n: usize) -> Vec<i16> {
    (0..n).map(|i| from.wrapping_add(i as i16)).collect()
}

#[test]
fn a_frame_is_twenty_milliseconds() {
    assert_eq!(SAMPLE_RATE as u64 * FRAME_MILLIS / 1000, FRAME_SAMPLES as u64);
}

#[test]
fn channels_are_averaged() {
    assert_eq!(downmix_i16(&[10, 20, -5, -10], 2), vec![15, -7]);
    assert_eq!(downmix_i16(&[i16::MAX, i16::MAX], 2), vec![i16::MAX]);
    assert_eq!(downmix_i16(&[i16::MIN, i16::MIN], 2), vec![i16::MIN]);
    assert_eq!(downmix_i16(&[1, 2, 3, 4, 9], 3), vec![2, 6]);
}

#[test]
fn mono_stays_as_it_is() {
    assert_eq!(downmix_i16(&[3, -4, 5], 1), vec![3, -4, 5]);
    assert_eq!(downmix_i16(&[3, -4, 5], 0), vec![3, -4, 5]);
    assert_eq!(downmix_i16(&[], 2), Vec::<i16>::new());
}

#[test]
fn the_microphone_is_cut_into_full_frames() {
    let mut assembler = FrameAssembler::new();
    let signal = ramp(0, 2500);
    let mut frames = assembler.push(&signal[..700]);
    assert_eq!(frames.len(), 0);
    frames.extend(assembler.push(&signal[700..2000]));
    assert_eq!(frames.len(), 2);
    frames.extend(assembler.push(&signal[2000..]));
    assert_eq!(frames.len(), 2);
    assert!(frames.iter().all(|f| f.len() == FRAME_SAMPLES));
    assert_eq!(frames.concat(), signal[..1920].to_vec());
    let last = assembler.push(&ramp(0, 380));
    assert_eq!(last.len(), 1);
    assert_eq!(last[0][..580], signal[1920..]);
}

#[test]
fn frames_are_encoded_unless_muted() {
    let samples = ramp(0, FRAME_SAMPLES);
    assert_eq!(
        capture_step(CaptureEvent::Frame { samples: samples.clone(), muted: false }),
        CaptureAction::Encode(samples.clone())
    );
    assert_eq!(
        capture_step(CaptureEvent::Frame { samples, muted: true }),
        CaptureAction::Wait
    );
}

#[test]
fn packets_are_written_until_the_track_refuses() {
    assert_eq!(
        capture_step(CaptureEvent::Encoded { out: vec![1, 2, 3, 0, 0], len: 3 }),
        CaptureAction::Write(vec![1, 2, 3])
    );
    assert_eq!(capture_step(CaptureEvent::EncodeFailed), CaptureAction::Wait);
    assert_eq!(capture_step(CaptureEvent::Written { ok: true }), CaptureAction::Wait);
    assert_eq!(capture_step(CaptureEvent::Written { ok: false }), CaptureAction::Stop);
    assert_eq!(capture_step(CaptureEvent::Closed), CaptureAction::Stop);
}

#[test]
fn a_packet_is_decoded_skipped_or_discarded() {
    assert_eq!(packet_action(0, false), PacketAction::Skip);
    assert_eq!(packet_action(0, true), PacketAction::Skip);
    assert_eq!(packet_action(40, true), PacketAction::Discard);
    assert_eq!(packet_action(40, false), PacketAction::Decode);
}

#[test]
fn playback_keeps_one_second() {
    let mut buffer = PlaybackBuffer::new();
    let first = vec![1i16; SAMPLE_RATE as usize];
    receive_packet(&mut buffer, 10, false, Some(first));
    assert_eq!(buffer.len(), SAMPLE_RATE as usize);
    receive_packet(&mut buffer, 10, false, Some(vec![2; 960]));
    assert_eq!(buffer.len(), SAMPLE_RATE as usize);
    let mut played: Vec<i16> = Vec::new();
    while buffer.len() > 0 {
        played.extend(buffer.take_chunk());
    }
    assert_eq!(played[..47040], vec![1i16; 47040]);
    assert_eq!(played[47040..], vec![2i16; 960]);
}

#[test]
fn deafening_empties_the_buffer() {
    let mut buffer = PlaybackBuffer::new();
    receive_packet(&mut buffer, 10, false, Some(vec![1; 10]));
    receive_packet(&mut buffer, 10, false, None);
    assert_eq!(buffer.len(), 10);
    receive_packet(&mut buffer, 0, true, None);
    assert_eq!(buffer.len(), 10);
    receive_packet(&mut buffer, 5, true, Some(vec![2; 10]));
    assert_eq!(buffer.len(), 0);
}

#[test]
fn a_chunk_is_at_most_a_frame() {
    let mut buffer = PlaybackBuffer::new();
    buffer.extend(&ramp(0, 1000));
    assert_eq!(buffer.take_chunk(), ramp(0, 960));
    assert_eq!(buffer.take_chunk(), ramp(960, 40));
    assert_eq!(buffer.take_chunk(), Vec::<i16>::new());
}

#[test]
fn the_output_is_fed_in_order() {
    let mut buffer = PlaybackBuffer::new();
    buffer.extend(&ramp(0, 1500));
    let mut feed = OutputFeed::new();
    let frames = output_frames(2000, 2);
    assert_eq!(frames, 1000);
    while let Some(chunk) = feed.next_chunk(&mut buffer, frames) {
        feed.absorb(&chunk);
    }
    assert_eq!(buffer.len(), 0);
    assert_eq!(feed.drain(frames), ramp(0, 1000));
    let mut rest = ramp(1000, 500);
    rest.extend(vec![0; 500]);
    assert_eq!(feed.drain(frames), rest);
}

#[test]
fn enough_pending_audio_leaves_the_buffer_alone() {
    let mut buffer = PlaybackBuffer::new();
    buffer.extend(&[7, 8]);
    let mut feed = OutputFeed::new();
    feed.absorb(&[1, 2, 3]);
    assert_eq!(feed.next_chunk(&mut buffer, 3), None);
    assert_eq!(buffer.len(), 2);
    assert_eq!(feed.next_chunk(&mut buffer, 4), Some(vec![7, 8]));
}

#[test]
fn mono_goes_to_every_channel() {
    assert_eq!(interleave(&[5, 6], 4, 2), vec![5, 5, 6, 6]);
    assert_eq!(interleave(&[5], 4, 2), vec![5, 5, 0, 0]);
    assert_eq!(interleave(&[5, 6], 3, 1), vec![5, 6, 0]);
    assert_eq!(output_sample(&[5, 6], 3, 0), 0);
    assert_eq!(output_sample(&[5, 6], 3, 2), 6);
    assert_eq!(output_frames(7, 0), 7);
}

#[test]
fn a_spread_signal_mixes_down_to_itself() {
    let mono = vec![1, -2, i16::MAX, i16::MIN, 0];
    for channels in [2usize, 3, 6] {
        let spread = interleave(&mono, mono.len() * channels, channels);
        assert_eq!(downmix_i16(&spread, channels), mono);
    }
}

#[test]
fn the_resampler_looks_back_across_blocks() {
    let mut resampler = Resampler::new(44100, SAMPLE_RATE);
    assert!(!resampler.passes_through(&[1, 2]));
    assert!(resampler.passes_through(&[]));
    assert!(Resampler::new(48000, 48000).passes_through(&[1]));
    assert_eq!(resampler.taps(&[10, 20], 0), (0, 10));
    assert_eq!(resampler.taps(&[10, 20], 1), (10, 20));
    resampler.finish(&[10, 20]);
    assert_eq!(resampler.taps(&[30], 0), (20, 30));
}

fn listing() -> Option<Vec<Option<String>>> {
    Some(vec![
        Some("Mic".to_owned()),
        None,
        Some("Headset".to_owned()),
        Some("Mic".to_owned()),
    ])
}

#[test]
fn devices_are_listed_by_name() {
    assert_eq!(input_device_names(listing()), vec!["Mic", "Headset", "Mic"]);
    assert_eq!(output_device_names(None), Vec::<String>::new());
}

#[test]
fn a_device_is_picked_by_name() {
    assert_eq!(pick_device(&listing(), Some("Headset")), Some(2));
    assert_eq!(pick_device(&listing(), Some("Mic")), Some(0));
    assert_eq!(pick_device(&listing(), Some("Gone")), None);
    assert_eq!(pick_device(&listing(), None), None);
    assert_eq!(pick_device(&None, Some("Mic")), None);
}

fn config(format: SampleFormat) -> DeviceConfig {
    DeviceConfig { sample_rate: 44100, channels: 2, format }
}

#[test]
fn a_stream_is_set_up_step_by_step() {
    let input = Direction::Input;
    let step = setup_step(input, StreamSetup::Picking, SetupEvent::Device(true));
    assert_eq!(step, Ok(StreamSetup::Configuring));
    let step = setup_step(
        input,
        StreamSetup::Configuring,
        SetupEvent::Config(Ok(config(SampleFormat::I16))),
    );
    assert_eq!(step, Ok(StreamSetup::Building(config(SampleFormat::I16))));
    let building = StreamSetup::Building(config(SampleFormat::F32));
    let step = setup_step(input, building, SetupEvent::Built(Ok(())));
    assert_eq!(step, Ok(StreamSetup::Starting));
    let step = setup_step(input, StreamSetup::Starting, SetupEvent::Started(Ok(())));
    assert_eq!(step, Ok(StreamSetup::Running));
}

#[test]
fn a_stream_set_up_says_what_failed() {
    let fails = |direction, setup, event| setup_step(direction, setup, event).unwrap_err();
    assert_eq!(
        fails(Direction::Input, StreamSetup::Picking, SetupEvent::Device(false)),
        "no input (microphone) device"
    );
    assert_eq!(
        fails(Direction::Output, StreamSetup::Picking, SetupEvent::Device(false)),
        "no output (speaker) device"
    );
    assert_eq!(
        fails(
            Direction::Output,
            StreamSetup::Configuring,
            SetupEvent::Config(Err("busy".to_owned()))
        ),
        "output config: busy"
    );
    assert_eq!(
        fails(
            Direction::Input,
            StreamSetup::Configuring,
            SetupEvent::Config(Ok(config(SampleFormat::Other("U8".to_owned()))))
        ),
        "unsupported input sample format U8"
    );
    assert_eq!(
        fails(
            Direction::Input,
            StreamSetup::Building(config(SampleFormat::F32)),
            SetupEvent::Built(Err("x".to_owned()))
        ),
        "build input stream: x"
    );
    assert_eq!(
        fails(Direction::Output, StreamSetup::Starting, SetupEvent::Started(Err("y".to_owned()))),
        "play output stream: y"
    );
}

#[test]
fn a_thread_that_died_is_reported() {
    assert_eq!(setup_outcome(Direction::Input, Some(Ok(()))), Ok(()));
    assert_eq!(
        setup_outcome(Direction::Input, Some(Err("e".to_owned()))),
        Err("e".to_owned())
    );
    assert_eq!(
        setup_outcome(Direction::Input, None),
        Err("capture thread died during setup".to_owned())
    );
    assert_eq!(
        setup_outcome(Direction::Output, None),
        Err("playback thread died during setup".to_owned())
    );
}
