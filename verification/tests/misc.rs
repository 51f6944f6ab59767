use dictate::audio::check_wav_format;
use dictate::audio::no_samples_error;
use dictate::audio::SampleDecoding;
use dictate::audio::WavFormat;
use dictate::audio::WavSampleFormat;
use dictate::control::parse_command;
use dictate::control::trim;
use dictate::control::ControlCommand;
use dictate::desktop_text::DisplayServer;
use dictate::desktop_text::SessionProbe;
use dictate::focus::FocusObservation;
use dictate::focus::FocusProbeFailure;
use dictate::focus::FocusProbeFailureKind;
use dictate::focus::FocusProbeIoOperation;
use dictate::focus::FocusProbeMessage;
use dictate::focus::FocusResponseFailureKind;
use dictate::focus::FocusSource;
use dictate::focus::NiriInstanceId;
use dictate::mic::dropped_duration_ms;
use dictate::niri::append_response_chunk;
use dictate::niri::observation_from_reply;
use dictate::niri::parse_process_start_time;
use dictate::niri::remaining_at;
use dictate::niri::NiriFocusedWindow;
use dictate::niri::NiriReply;
use dictate::niri::RESPONSE_LIMIT;
use dictate::paths::join;
use dictate::settings::settings_from_file;
use dictate::settings::Settings;
use dictate::settings::SettingsDeliveryTarget;
use dictate::settings::SettingsDictationMode;
use dictate::delivery::DeliveryTarget;
use dictate::models::DEFAULT_MODEL_ID_STR;
use dictate::text::DictationMode;
use dictate::time::Moment;

fn test_instance() -> NiriInstanceId {
    NiriInstanceId::new(42, 999)
}

#[test]
fn dropped_duration_ms_converts_samples_at_input_rate() {
    assert_eq!(dropped_duration_ms(48, 48_000), 1);
}

#[test]
fn dropped_duration_rounds_down_to_whole_milliseconds() {
    assert_eq!(dropped_duration_ms(47, 48_000), 0);
    assert_eq!(dropped_duration_ms(16_000, 16_000), 1000);
}

#[test]
fn parses_process_start_time_after_parenthesized_command() {
    let stat = "42 (niri compositor) S 4 5 6 7 8 9 10 11 12 13 14 15 16 17 18 19 20 21 999";

    assert_eq!(parse_process_start_time(stat), Some(999));
    assert_eq!(parse_process_start_time("malformed"), None);
}

#[test]
fn process_start_time_uses_the_last_closing_parenthesis() {
    let stat = "7 (a) b) S 4 5 6 7 8 9 10 11 12 13 14 15 16 17 18 19 20 21 123 x";
    assert_eq!(parse_process_start_time(stat), Some(123));
    assert_eq!(parse_process_start_time("7 (a) S 4 5"), None);
    let not_a_number = "7 (a) S 4 5 6 7 8 9 10 11 12 13 14 15 16 17 18 19 20 21 12x";
    assert_eq!(parse_process_start_time(not_a_number), None);
}

#[test]
fn reads_record_commands() {
    for (wire_command, command) in [
        ("start\n", ControlCommand::Start),
        ("stop\n", ControlCommand::Stop),
        ("toggle\n", ControlCommand::Toggle),
        ("cancel\n", ControlCommand::Cancel),
    ] {
        assert_eq!(parse_command(wire_command.as_bytes()), Some(command));
        assert_eq!(parse_command(command.as_wire_command().as_bytes()), Some(command));
    }
}

#[test]
fn ignores_unknown_command() {
    assert_eq!(parse_command(b"bogus\n"), None);
    assert_eq!(parse_command(b"st art"), None);
    assert_eq!(parse_command(&[0xff, 0xfe]), None);
    assert_eq!(trim("  toggle \t\r\n"), "toggle");
}

#[test]
fn response_reader_stops_at_newline() {
    let mut response = Vec::new();
    assert_eq!(append_response_chunk(&mut response, b"rep"), Ok(false));
    assert_eq!(append_response_chunk(&mut response, b"ly\nignored"), Ok(true));
    assert_eq!(response, b"reply");
}

#[test]
fn response_reader_rejects_oversized_payload() {
    let mut response = vec![b'x'; RESPONSE_LIMIT - 1];
    assert_eq!(
        append_response_chunk(&mut response, b"yz"),
        Err(FocusProbeFailureKind::ResponseTooLarge { limit: RESPONSE_LIMIT })
    );
    assert_eq!(response.len(), RESPONSE_LIMIT - 1);
    assert_eq!(append_response_chunk(&mut response, b"y\n"), Ok(true));
    assert_eq!(response.len(), RESPONSE_LIMIT);
}

#[test]
fn deadline_in_the_past_is_a_timeout() {
    let deadline = Moment::from_nanos(1_000).unwrap();
    let now = Moment::from_nanos(400).unwrap();
    assert_eq!(
        remaining_at(deadline, now, FocusProbeIoOperation::Connect)
            .unwrap()
            .as_nanos(),
        600
    );
    assert!(matches!(
        remaining_at(deadline, deadline, FocusProbeIoOperation::ReadResponse),
        Err(FocusProbeFailureKind::TimedOut {
            operation: FocusProbeIoOperation::ReadResponse,
            ..
        })
    ));
}

#[test]
fn parses_null_as_no_focused_window() {
    assert_eq!(
        observation_from_reply(&NiriReply::FocusedWindow(None), test_instance()),
        FocusObservation::NoFocusedWindow {
            source: FocusSource::Niri
        }
    );
}

#[test]
fn focused_window_keeps_only_its_identity_and_labels() {
    let reply = NiriReply::FocusedWindow(Some(NiriFocusedWindow {
        id: 2,
        app_id: Some("dev.zed.Zed".to_owned()),
        title: Some("README.md — dictate".to_owned()),
    }));
    match observation_from_reply(&reply, test_instance()) {
        FocusObservation::Focused(window) => {
            assert_eq!(window.source, FocusSource::Niri);
            assert_eq!(window.instance, test_instance());
            assert_eq!(window.id, 2);
            assert_eq!(window.app_id.as_deref(), Some("dev.zed.Zed"));
            assert_eq!(window.title.as_deref(), Some("README.md — dictate"));
        }
        other => panic!("expected a focused window, got {other:?}"),
    }
}

#[test]
fn malformed_response_is_a_typed_probe_failure_without_raw_json() {
    let reply = NiriReply::Invalid {
        kind: FocusResponseFailureKind::Data,
        line: 1,
        column: 27,
    };
    assert_eq!(
        observation_from_reply(&reply, test_instance()),
        FocusObservation::ProbeFailed(FocusProbeFailure {
            source: FocusSource::Niri,
            kind: FocusProbeFailureKind::InvalidResponse {
                kind: FocusResponseFailureKind::Data,
                line: 1,
                column: 27,
            },
        })
    );
}

#[test]
fn rejected_request_message_is_safe_for_one_line_logs() {
    let reply = NiriReply::Rejected("bad\n\u{1b}[31mrequest".to_owned());
    assert_eq!(
        observation_from_reply(&reply, test_instance()),
        FocusObservation::ProbeFailed(FocusProbeFailure {
            source: FocusSource::Niri,
            kind: FocusProbeFailureKind::RequestRejected {
                message: FocusProbeMessage {
                    text: "bad\\u{a}\\u{1b}[31mrequest".to_owned()
                },
            },
        })
    );
    assert_eq!(FocusProbeMessage::new("plain").text, "plain");
    assert_eq!(FocusProbeMessage::new("\u{9f}").text, "\\u{9f}");
}

#[test]
fn join_places_one_separator() {
    assert_eq!(join("/a", "b"), "/a/b");
    assert_eq!(join("/a/", "b"), "/a/b");
    assert_eq!(join("", "b"), "b");
    assert_eq!(join("/a", "/etc"), "/etc");
}

#[test]
fn missing_file_loads_defaults() {
    let settings = settings_from_file("/nowhere/config.toml", None).unwrap();

    assert_eq!(settings.model().unwrap().id().as_str(), DEFAULT_MODEL_ID_STR);
    assert_eq!(settings.dictation_context().mode(), DictationMode::Message);
    assert_eq!(settings.delivery(), DeliveryTarget::Stdout);
}

#[test]
fn bad_model_id_error_lists_valid_ids() {
    let parsed = Settings {
        model: "bogus-model".to_owned(),
        ..Settings::default()
    };
    let message = settings_from_file("/tmp/config.toml", Some(parsed)).unwrap_err();

    assert!(message.contains("bogus-model"), "{message}");
    assert!(message.contains(DEFAULT_MODEL_ID_STR), "{message}");
    assert!(message.starts_with("invalid settings file /tmp/config.toml: unknown model id \"bogus-model\""));
}

#[test]
fn partial_settings_inherit_defaults() {
    let parsed = Settings {
        mode: SettingsDictationMode::Email,
        ..Settings::default()
    };
    let settings = settings_from_file("config.toml", Some(parsed)).unwrap();

    assert_eq!(settings.model().unwrap().id().as_str(), DEFAULT_MODEL_ID_STR);
    assert_eq!(settings.dictation_context().mode(), DictationMode::Email);
    assert_eq!(settings.delivery(), DeliveryTarget::Stdout);
    assert_eq!(settings.delivery, SettingsDeliveryTarget::Stdout);
}

#[test]
fn wayland_is_detected_before_x11() {
    let probe = SessionProbe {
        wayland_display_set: false,
        session_type: Some("wayland".chars().collect()),
        display_set: true,
        process_list: None,
    };
    assert_eq!(DisplayServer::detect_from(&probe), DisplayServer::Wayland);
    let probe = SessionProbe {
        wayland_display_set: false,
        session_type: None,
        display_set: false,
        process_list: Some(" 12 ?  00:00:01 Xwayland\n".chars().collect()),
    };
    assert_eq!(DisplayServer::detect_from(&probe), DisplayServer::Wayland);
    let probe = SessionProbe {
        wayland_display_set: false,
        session_type: None,
        display_set: false,
        process_list: Some(" 12 ?  00:00:01 Xorg\n".chars().collect()),
    };
    assert_eq!(DisplayServer::detect_from(&probe), DisplayServer::X11);
}

#[test]
fn insert_commands_per_display_server() {
    let x11 = DisplayServer::X11.get_insert_command("hi");
    assert_eq!(x11.program, "xdotool");
    assert_eq!(x11.args, vec!["type", "--", "hi"]);
    let wayland = DisplayServer::Wayland.get_insert_command("hi");
    assert_eq!(wayland.program, "wtype");
    assert_eq!(wayland.args, vec!["hi"]);
}

fn wav(channels: u16, sample_rate: u32, bits: u16, format: WavSampleFormat) -> WavFormat {
    WavFormat {
        channels,
        sample_rate,
        bits_per_sample: bits,
        sample_format: format,
    }
}

#[test]
fn wav_checks_reject_stereo_wrong_rate_and_odd_widths() {
    let stereo = check_wav_format("a.wav", wav(2, 16_000, 16, WavSampleFormat::Int)).unwrap_err();
    assert_eq!(stereo, "audio file a.wav has 2 channels; expected mono");
    let slow = check_wav_format("a.wav", wav(1, 8_000, 16, WavSampleFormat::Int)).unwrap_err();
    assert!(slow.contains("8000 Hz sample rate"));
    assert_eq!(slow, "audio file a.wav has 8000 Hz sample rate; expected 16000 Hz");
    let wide = check_wav_format("a.wav", wav(1, 16_000, 33, WavSampleFormat::Int)).unwrap_err();
    assert_eq!(wide, "audio file a.wav has unsupported 33-bit integer samples");
    let half = check_wav_format("a.wav", wav(1, 16_000, 16, WavSampleFormat::Float)).unwrap_err();
    assert_eq!(half, "audio file a.wav has unsupported 16-bit float samples");
    assert_eq!(no_samples_error("a.wav"), "audio file a.wav had no samples");
}

#[test]
fn wav_checks_accept_mono_dictation_audio() {
    assert_eq!(
        check_wav_format("a.wav", wav(1, 16_000, 16, WavSampleFormat::Int)),
        Ok(SampleDecoding::Int { bits_per_sample: 16 })
    );
    assert_eq!(
        check_wav_format("a.wav", wav(1, 16_000, 32, WavSampleFormat::Float)),
        Ok(SampleDecoding::Float)
    );
}
