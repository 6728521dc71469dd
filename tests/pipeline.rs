use raflow::pipeline::{classify_silence, subframe_layout, ConsumerState, SilenceTracker, SILENCE_THRESHOLD};
use raflow::processor::{check_frame, suppression_applicable, NoiseSuppressionLevel, ProcessorError};
use raflow::protocol::ClientMessage;
use raflow::resampler::{input_layout, scratch_len, InputLayout, Interpolation, Quality, ResamplerError};
use raflow::session::{SendAction, SendBatcher, SILENCE_COMMIT_MS};

#[test]
fn test_invalid_input_size() {
    let result = input_layout(100, 480);
    assert!(result.is_err());
}

#[test]
fn test_invalid_frame_size() {
    let result = check_frame(100, 480);
    assert!(result.is_err());

    if let Err(ProcessorError::InvalidFrameSize { expected, actual }) = result {
        assert_eq!(expected, 480);
        assert_eq!(actual, 100);
    } else {
        panic!("Expected InvalidFrameSize error");
    }
}

#[test]
fn input_layouts() {
    assert_eq!(input_layout(960, 480).unwrap(), InputLayout::Stereo);
    assert_eq!(input_layout(480, 480).unwrap(), InputLayout::Mono);
    match input_layout(481, 480) {
        Err(ResamplerError::InvalidInputSize { expected, actual }) => {
            assert_eq!(expected, 480);
            assert_eq!(actual, 481);
        }
        other => panic!("unexpected {:?}", other),
    }
    assert!(input_layout(usize::MAX, usize::MAX / 2 + 1).is_err());
}

#[test]
fn scratch_buffer_sizes() {
    assert_eq!(scratch_len(480, 48000, 16000), Some(176));
    assert_eq!(scratch_len(441, 44100, 16000), Some(176));
    assert_eq!(scratch_len(100, 16000, 16000), Some(110));
    assert_eq!(scratch_len(0, 48000, 16000), Some(0));
    assert_eq!(scratch_len(usize::MAX, 1, 2), None);
}

#[test]
fn quality_tiers() {
    assert_eq!(Quality::Low.interpolation(), Interpolation::Linear);
    assert_eq!(Quality::Medium.interpolation(), Interpolation::Cubic);
    assert_eq!(Quality::High.interpolation(), Interpolation::Sinc);
}

#[test]
fn suppression_only_at_its_rate() {
    assert!(suppression_applicable(true, 48000));
    assert!(!suppression_applicable(true, 44100));
    assert!(!suppression_applicable(false, 48000));
    assert!(check_frame(480, 480).is_ok());
    assert_eq!(NoiseSuppressionLevel::default(), NoiseSuppressionLevel::Moderate);
}

#[test]
fn subframes_and_tail() {
    let layout = subframe_layout(1000, 480);
    assert_eq!(layout.full_frames, 2);
    assert_eq!(layout.tail, 40);
    let layout = subframe_layout(300, 480);
    assert_eq!(layout.full_frames, 0);
    assert_eq!(layout.tail, 300);
}

#[test]
fn silence_classification() {
    assert!(classify_silence(true, 2, true, true));
    assert!(!classify_silence(true, 0, true, true));
    assert!(!classify_silence(true, 2, false, true));
    assert!(!classify_silence(true, 2, true, false));
    assert!(classify_silence(false, 0, false, true));
    assert!(!classify_silence(false, 3, true, false));
}

#[test]
fn tracker_counts_and_resets() {
    let mut t = SilenceTracker::new(2);
    t.observe(true);
    assert!(!t.is_holding());
    t.observe(true);
    assert!(t.is_holding());
    assert_eq!(t.count(), 2);
    t.observe(false);
    assert_eq!(t.count(), 0);
    assert!(!t.is_holding());
}

#[test]
fn consumer_holds_back_after_the_threshold() {
    let mut c = ConsumerState::new(SILENCE_THRESHOLD);
    assert!(c.needs_resampler(480));
    c.resampler_built(480);
    assert!(!c.needs_resampler(480));
    assert!(c.needs_resampler(441));
    for _ in 0..5 {
        assert!(c.frame_classified(true));
    }
    assert!(!c.frame_classified(true));
    assert!(!c.frame_classified(true));
    assert!(c.frame_classified(false));
    assert_eq!(c.silence().count(), 0);
}

fn commit_parts(m: &ClientMessage) -> (String, Option<bool>) {
    match m {
        ClientMessage::AudioChunk { audio_base_64, commit } => (audio_base_64.clone(), *commit),
    }
}

#[test]
fn batches_go_out_at_ticks() {
    let mut b = SendBatcher::new(0, SILENCE_COMMIT_MS);
    b.on_audio(&[100, -100], 10);
    b.on_audio(&[200, -200], 20);
    match b.on_tick(500) {
        SendAction::Audio(m) => assert_eq!(commit_parts(&m), ("ZACc/8gAOP8=".to_string(), None)),
        other => panic!("unexpected {:?}", other),
    }
    assert!(matches!(b.on_tick(1000), SendAction::Idle));
}

#[test]
fn commit_is_sent_once_per_silence() {
    let mut b = SendBatcher::new(0, 2000);
    assert!(matches!(b.on_tick(1999), SendAction::Idle));
    match b.on_tick(2000) {
        SendAction::Commit(m) => assert_eq!(commit_parts(&m), (String::new(), Some(true))),
        other => panic!("unexpected {:?}", other),
    }
    assert!(matches!(b.on_tick(2500), SendAction::Idle));
    assert!(matches!(b.on_tick(9000), SendAction::Idle));
    b.on_audio(&[1], 9100);
    assert!(matches!(b.on_tick(9500), SendAction::Audio(_)));
    assert!(matches!(b.on_tick(10000), SendAction::Idle));
    assert!(matches!(b.on_tick(11100), SendAction::Commit(_)));
    assert!(b.has_room(1000));
}
