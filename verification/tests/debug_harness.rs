use dictate::daemon::OverlayState;
use dictate::debug_harness::cycle_scenario;
use dictate::debug_harness::default_scenario_rows;
use dictate::debug_harness::overlay_scenario_ids;
use dictate::debug_harness::overlay_scenario_rows;
use dictate::debug_harness::overlay_screen_listing;
use dictate::debug_harness::parse_millisecond_duration;
use dictate::debug_harness::resolve_selection;
use dictate::debug_harness::unknown_screen_error;
use dictate::debug_harness::validate_registry;
use dictate::debug_harness::OverlayScenario;
use dictate::debug_harness::ScreenListing;
use dictate::insert_preview::insert_screen_listing;

fn registry() -> Vec<ScreenListing> {
    vec![overlay_screen_listing(), insert_screen_listing()]
}

#[test]
fn unknown_screen_errors() {
    let error = resolve_selection(&registry(), Some("nope"), None).unwrap_err();

    assert!(error.contains("unknown debug screen"));
    assert!(error.contains("nope"));
    assert_eq!(
        error,
        "unknown debug screen \"nope\"; valid screens: overlay, insert"
    );
    assert_eq!(unknown_screen_error("x", &[]), "unknown debug screen \"x\"; valid screens: ");
}

#[test]
fn unknown_scenario_errors() {
    let error = resolve_selection(&registry(), Some("overlay"), Some("nope")).unwrap_err();

    assert!(error.contains("unknown scenario"));
    assert!(error.contains("nope"));
    assert!(error.contains("overlay"));
    assert!(error.starts_with(
        "unknown scenario \"nope\" for screen \"overlay\"; valid scenarios: recording-sine, recording-constant,"
    ));
}

#[test]
fn registry_validation_rejects_empty_scenarios() {
    let registry = vec![ScreenListing {
        name: "empty",
        description: "empty scenario test screen",
        scenarios: Vec::new(),
    }];
    let error = validate_registry(&registry).unwrap_err();

    assert!(error.contains("must define at least one scenario"));
    assert!(error.contains("empty"));
    assert!(resolve_selection(&registry, None, None).is_err());
    assert!(validate_registry(&[]).is_ok());
    assert_eq!(
        resolve_selection(&[], None, None).unwrap_err(),
        "debug registry is empty"
    );
}

#[test]
fn selection_defaults_to_first_scenario_for_selected_screen() {
    let selection = resolve_selection(&registry(), Some("overlay"), None).unwrap();

    assert_eq!(selection.screen, "overlay");
    assert_eq!(selection.scenario, "recording-sine");

    let selection = resolve_selection(&registry(), None, None).unwrap();
    assert_eq!(selection.screen, "overlay");
    let selection = resolve_selection(&registry(), Some("insert"), Some("backend-failed")).unwrap();
    assert_eq!(selection.screen, "insert");
    assert_eq!(selection.scenario, "backend-failed");
}

#[test]
fn scenario_ids_round_trip_exhaustively() {
    let ids = overlay_scenario_ids();
    assert_eq!(OverlayScenario::all().len(), ids.len());

    for scenario in OverlayScenario::all() {
        let id = scenario.id();

        assert!(ids.contains(&id));
        assert_eq!(OverlayScenario::from_id(id), Some(scenario));
    }

    for id in ids.iter().copied() {
        let scenario = OverlayScenario::from_id(id).expect("listed id must parse");

        assert_eq!(scenario.id(), id);
    }
    assert_eq!(OverlayScenario::selected("bogus"), OverlayScenario::RecordingSine);
}

#[test]
fn recording_sources_all_show_the_recording_state() {
    for scenario in [
        OverlayScenario::RecordingSine,
        OverlayScenario::RecordingConstant,
        OverlayScenario::RecordingFrames,
        OverlayScenario::RecordingLive,
    ] {
        assert_eq!(scenario.overlay_state(), OverlayState::Recording);
    }
    assert_eq!(
        OverlayScenario::NothingToPaste.overlay_state(),
        OverlayState::NothingToPaste
    );
}

#[test]
fn cycling_wraps_in_both_directions() {
    let scenarios = ["a", "b", "c"];
    assert_eq!(cycle_scenario(&scenarios, "a", 1), 1);
    assert_eq!(cycle_scenario(&scenarios, "c", 1), 0);
    assert_eq!(cycle_scenario(&scenarios, "a", -1), 2);
    assert_eq!(cycle_scenario(&scenarios, "zzz", -1), 2);
    assert_eq!(cycle_scenario(&scenarios, "b", 7), 2);
    assert_eq!(cycle_scenario(&scenarios, "b", isize::MIN), 2);
}

#[test]
fn scenario_rows_open_what_they_match() {
    let rows = overlay_scenario_rows();
    assert_eq!(rows.len(), 2);
    assert_eq!(rows[0].chips.len(), 8);
    assert_eq!(rows[1].chips.len(), 4);
    for row in &rows {
        for chip in &row.chips {
            assert!(chip.matches.contains(&chip.activates));
            for id in &chip.matches {
                assert!(OverlayScenario::from_id(id).is_some());
            }
        }
    }
    let default_rows = default_scenario_rows(&["one", "two"]);
    assert_eq!(default_rows.len(), 1);
    assert_eq!(default_rows[0].label, "scenario");
    assert_eq!(default_rows[0].chips[1].activates, "two");
    assert_eq!(default_rows[0].chips[1].matches, vec!["two"]);
}

#[test]
fn millisecond_durations_parse_whole_milliseconds() {
    let span = parse_millisecond_duration("500ms").unwrap().unwrap();
    assert_eq!(span.as_millis(), 500);
    assert_eq!(parse_millisecond_duration("+7ms").unwrap().unwrap().as_millis(), 7);
    assert_eq!(parse_millisecond_duration("2s"), None);
    assert_eq!(parse_millisecond_duration("1.5"), None);
    assert_eq!(
        parse_millisecond_duration("fast ms").unwrap().unwrap_err(),
        "invalid millisecond duration \"fast ms\""
    );
    assert!(parse_millisecond_duration("ms").unwrap().is_err());
}
