use dictate::delivery::ConfirmedDeliveryTarget;
use dictate::delivery::DeliveryReport;
use dictate::insert_preview::delivery_report_for_scenario;
use dictate::insert_preview::preview_report_for_scenario;
use dictate::insert_preview::scenario_ids;
use dictate::insert_preview::summarize_report;
use dictate::insert_preview::InsertScenario;
use dictate::insert_preview::PreviewReport;

#[test]
fn scenario_ids_are_derived_from_supported_scenarios() {
    let expected = InsertScenario::all()
        .iter()
        .map(|scenario| scenario.id())
        .collect::<Vec<_>>();

    assert_eq!(scenario_ids().as_slice(), expected.as_slice());
    for id in scenario_ids().iter() {
        assert!(InsertScenario::from_id(id).is_some());
    }
}

#[test]
fn scenarios_map_through_delivery_policy() {
    let cases = [
        ("inserted", "sent to input method"),
        ("fallback-no-text-input", "clipboard fallback"),
        ("fallback-no-wayland", "clipboard fallback"),
        ("fallback-clipboard-failed", "stdout fallback"),
        ("fallback-stdout-failed", "not delivered"),
        ("backend-failed", "uncertain; fallback skipped"),
    ];

    for (scenario, expected_outcome) in cases {
        let preview = preview_report_for_scenario(scenario).unwrap();

        assert_eq!(preview.final_outcome, expected_outcome);
    }
}

#[test]
fn clipboard_failure_scenario_reports_both_fallback_failures() {
    let preview = preview_report_for_scenario("fallback-clipboard-failed").unwrap();

    assert!(preview.insert_detail.contains("rejected"));
    assert!(preview
        .clipboard_detail
        .contains("simulated clipboard failure"));
    assert_eq!(preview.stdout_detail, "wrote text to stdout");
}

#[test]
fn stdout_failure_scenario_reports_all_failures() {
    let preview = preview_report_for_scenario("fallback-stdout-failed").unwrap();

    assert_eq!(preview.final_outcome, "not delivered");
    assert!(preview.insert_detail.contains("rejected"));
    assert!(preview
        .clipboard_detail
        .contains("simulated clipboard failure"));
    assert!(preview.stdout_detail.contains("simulated stdout failure"));
}

#[test]
fn backend_failed_scenario_skips_fallback() {
    let preview = preview_report_for_scenario("backend-failed").unwrap();

    assert_eq!(preview.clipboard_detail, "not used");
    assert!(preview.message.contains("could duplicate text"));
}

#[test]
fn unknown_insert_scenario_is_not_run() {
    assert!(preview_report_for_scenario("nope").is_none());
    let preview = PreviewReport::unknown_scenario("nope");
    assert_eq!(preview.final_outcome, "unknown scenario");
    assert_eq!(preview.insert_detail, "not run");
    assert_eq!(preview.message, "unknown insert debug scenario \"nope\"");
}

#[test]
fn inserted_scenario_reports_the_sample_length() {
    let report = delivery_report_for_scenario(InsertScenario::Inserted);
    assert!(matches!(report, DeliveryReport::InsertRequestSent { sent_bytes: 30 }));
    let preview = summarize_report("inserted", &report);
    assert_eq!(
        preview.insert_detail,
        "30 bytes sent to the Wayland input method"
    );
    assert_eq!(preview.outcome_color, 0x34d399);
    assert_eq!(preview.requested_target, "insert");
    assert_eq!(preview.scenario, "inserted");
}

#[test]
fn full_failure_lists_every_path_in_order() {
    let preview = preview_report_for_scenario("fallback-stdout-failed").unwrap();
    assert_eq!(
        preview.message,
        "All delivery paths failed: insert failed: Wayland input method rejected the insertion request; \
         clipboard failed: failed to copy text to clipboard: simulated clipboard failure; \
         stdout failed: simulated stdout failure (BrokenPipe)"
    );
    assert_eq!(preview.stdout_detail, "simulated stdout failure (BrokenPipe)");
    assert_eq!(preview.outcome_color, 0xf87171);
}

#[test]
fn clipboard_fallback_after_missing_display() {
    let report = delivery_report_for_scenario(InsertScenario::FallbackNoWayland);
    match &report {
        DeliveryReport::Delivered {
            target,
            preceding_failures,
        } => {
            assert_eq!(*target, ConfirmedDeliveryTarget::Clipboard);
            assert_eq!(preceding_failures.len(), 1);
        }
        other => panic!("expected clipboard delivery, got {other:?}"),
    }
    let preview = summarize_report("fallback-no-wayland", &report);
    assert_eq!(
        preview.insert_detail,
        "Wayland text insertion is unavailable: WAYLAND_DISPLAY is not set"
    );
    assert_eq!(preview.clipboard_detail, "copied text to clipboard");
    assert_eq!(preview.stdout_detail, "not used");
    assert_eq!(preview.message, "Delivery completed via clipboard fallback.");
}
