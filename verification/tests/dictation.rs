use dictate::dictation::dictation_sample_rate;
use dictate::dictation::max_dictation_duration;
use dictate::dictation::max_dictation_samples;
use dictate::dictation::CapturedUtterance;
use dictate::dictation::DictationCommand;
use dictate::dictation::DictationControl;
use dictate::dictation::DictationPhase;
use dictate::dictation::DictationUpdate;
use dictate::dictation::RecordSamplesUpdate;
use dictate::dictation::SampleRate;
use dictate::time::TimeSpan;

fn test_sample_rate() -> SampleRate {
    SampleRate::new(4).expect("non-zero sample rate")
}

#[test]
fn zero_sample_rate_is_rejected() {
    assert!(SampleRate::new(0).is_none());
}

#[test]
fn phase_labels_describe_user_action_or_state() {
    assert_eq!(
        DictationPhase::Initializing.label(),
        "Transcription starting…"
    );
    assert_eq!(DictationPhase::Idle.label(), "Ready");
    assert_eq!(DictationPhase::Recording.label(), "Recording…");
    assert_eq!(DictationPhase::Transcribing.label(), "Transcribing…");
    assert_eq!(
        DictationPhase::Unavailable.label(),
        "Transcription unavailable"
    );
}

#[test]
fn recording_stops_to_captured_utterance() {
    let mut dictation = DictationControl::<f32>::new();
    dictation.mark_ready();

    assert_eq!(
        dictation.apply(DictationCommand::Start),
        DictationUpdate::Started
    );
    dictation.record_samples(&[0.1, 0.2]);
    dictation.record_samples(&[0.3]);
    assert_eq!(
        dictation.apply(DictationCommand::Stop),
        DictationUpdate::Stopped
    );

    let utterance = dictation.take_utterance().expect("recording has samples");
    assert_eq!(utterance.sample_rate(), dictation_sample_rate());
    assert_eq!(utterance.samples(), &[0.1, 0.2, 0.3]);
}

#[test]
fn empty_recording_returns_to_idle() {
    let mut dictation = DictationControl::<f32>::new();
    dictation.mark_ready();

    assert_eq!(
        dictation.apply(DictationCommand::Start),
        DictationUpdate::Started
    );
    assert_eq!(
        dictation.apply(DictationCommand::Stop),
        DictationUpdate::Stopped
    );

    assert_eq!(dictation.phase(), DictationPhase::Idle);
    assert!(dictation.take_utterance().is_none());
}

#[test]
fn initializing_blocks_recording_until_microphone_is_ready() {
    let mut dictation = DictationControl::<f32>::new();

    assert_eq!(dictation.phase(), DictationPhase::Initializing);
    assert_eq!(
        dictation.apply(DictationCommand::Start),
        DictationUpdate::Busy(DictationPhase::Initializing)
    );
    assert_eq!(dictation.phase(), DictationPhase::Initializing);

    dictation.mark_ready();
    assert_eq!(
        dictation.apply(DictationCommand::Start),
        DictationUpdate::Started
    );
}

#[test]
fn cap_samples_auto_stop_to_transcribing() {
    let sample_rate = test_sample_rate();
    let cap_samples = max_dictation_samples(sample_rate);
    let mut dictation = DictationControl::<f32>::new_recording(sample_rate);

    assert_eq!(
        dictation.record_samples(&vec![0.1; cap_samples]),
        RecordSamplesUpdate::AutoStopped {
            duration: max_dictation_duration()
        }
    );

    let utterance = dictation
        .take_utterance()
        .expect("auto-stop queues utterance");
    assert_eq!(utterance.sample_rate(), sample_rate);
    assert_eq!(utterance.samples().len(), cap_samples);
}

#[test]
fn cap_samples_truncate_final_batch_at_limit() {
    let sample_rate = test_sample_rate();
    let cap_samples = max_dictation_samples(sample_rate);
    let mut dictation = DictationControl::<f32>::new_recording(sample_rate);

    assert_eq!(
        dictation.record_samples(&vec![1.0; cap_samples - 2]),
        RecordSamplesUpdate::Recording
    );
    assert_eq!(
        dictation.record_samples(&[2.0, 3.0, 4.0, 5.0]),
        RecordSamplesUpdate::AutoStopped {
            duration: max_dictation_duration()
        }
    );

    let utterance = dictation
        .take_utterance()
        .expect("auto-stop queues utterance");
    assert_eq!(utterance.samples().len(), cap_samples);
    assert_eq!(&utterance.samples()[cap_samples - 2..], &[2.0, 3.0]);
}

#[test]
fn record_samples_ignored_after_auto_stop_until_transcription_finishes() {
    let sample_rate = test_sample_rate();
    let cap_samples = max_dictation_samples(sample_rate);
    let mut dictation = DictationControl::<f32>::new_recording(sample_rate);

    assert_eq!(
        dictation.record_samples(&vec![0.1; cap_samples]),
        RecordSamplesUpdate::AutoStopped {
            duration: max_dictation_duration()
        }
    );
    assert_eq!(
        dictation.record_samples(&[0.2, 0.3]),
        RecordSamplesUpdate::Ignored
    );

    let utterance = dictation
        .take_utterance()
        .expect("auto-stop queues utterance");
    assert_eq!(utterance.samples().len(), cap_samples);
    dictation.finish_transcription();
    assert_eq!(dictation.phase(), DictationPhase::Idle);
}

#[test]
fn cap_is_ten_minutes_of_samples() {
    assert_eq!(max_dictation_samples(test_sample_rate()), 2400);
    assert_eq!(max_dictation_samples(dictation_sample_rate()), 9_600_000);
    assert_eq!(max_dictation_duration().as_millis(), 600_000);
}

#[test]
fn captured_utterance_needs_samples() {
    assert!(CapturedUtterance::<f32>::new(test_sample_rate(), Vec::new()).is_none());
    let utterance = CapturedUtterance::new(test_sample_rate(), vec![0.5f32, 0.25])
        .expect("samples produce an utterance");
    assert_eq!(utterance.sample_rate().as_hz(), 4);
    assert_eq!(utterance.samples(), &[0.5, 0.25]);
}

#[test]
fn commands_round_trip_through_their_wire_names() {
    for command in [
        DictationCommand::Start,
        DictationCommand::Stop,
        DictationCommand::Toggle,
        DictationCommand::Cancel,
    ] {
        assert_eq!(DictationCommand::parse(command.as_str()), Ok(command));
    }
    assert!(DictationCommand::parse("pause").is_err());
}

#[test]
fn toggle_starts_then_stops_and_cancel_discards() {
    let mut dictation = DictationControl::<f32>::new();
    dictation.mark_ready();
    assert_eq!(
        dictation.apply(DictationCommand::Toggle),
        DictationUpdate::Started
    );
    dictation.record_samples(&[0.5]);
    assert_eq!(
        dictation.apply(DictationCommand::Cancel),
        DictationUpdate::Cancelled
    );
    assert_eq!(dictation.phase(), DictationPhase::Idle);
    assert!(dictation.take_utterance().is_none());

    assert_eq!(
        dictation.apply(DictationCommand::Toggle),
        DictationUpdate::Started
    );
    dictation.record_samples(&[0.5]);
    assert_eq!(
        dictation.apply(DictationCommand::Toggle),
        DictationUpdate::Stopped
    );
    assert_eq!(dictation.phase(), DictationPhase::Transcribing);
    assert_eq!(
        dictation.apply(DictationCommand::Start),
        DictationUpdate::Busy(DictationPhase::Transcribing)
    );
}

#[test]
fn unavailable_refuses_recording() {
    let mut dictation = DictationControl::<f32>::new();
    dictation.mark_unavailable();
    assert_eq!(dictation.phase(), DictationPhase::Unavailable);
    assert_eq!(
        dictation.apply(DictationCommand::Start),
        DictationUpdate::Busy(DictationPhase::Unavailable)
    );
}

#[test]
fn utterance_duration_uses_sample_rate() {
    let sample_rate = SampleRate::new(4).expect("non-zero sample rate");
    let utterance = CapturedUtterance::new(sample_rate, vec![0.0_f32; 6])
        .expect("samples produce an utterance");

    assert_eq!(utterance.duration(), TimeSpan::from_millis(1_500));
}

#[test]
fn utterance_duration_rounds_down_to_whole_nanoseconds() {
    let sample_rate = SampleRate::new(3).expect("non-zero sample rate");
    let utterance =
        CapturedUtterance::new(sample_rate, vec![0_i16; 1]).expect("samples produce an utterance");

    assert_eq!(utterance.duration().as_nanos(), 333_333_333);
}
