use rollout_webhook::{
    classify_payload, classify_run_name, digits_only, merge_patch, release_label, rollout_patch,
    rollout_patch_for, workflow_run_name, PayloadKind, DEPLOYMENT_NAME, TARGET_WORKFLOW,
};

#[test]
fn workflow_run_name_reads_nested_field() {
    let body = br#"{"action":"completed","workflow_run":{"id":7,"name":"continuous-delivery"}}"#;
    assert_eq!(workflow_run_name(body), Some("continuous-delivery".to_string()));
}

#[test]
fn workflow_run_name_absent_cases() {
    assert_eq!(workflow_run_name(b"not json"), None);
    assert_eq!(workflow_run_name(b""), None);
    assert_eq!(workflow_run_name(br#"{"zen":"hi"}"#), None);
    assert_eq!(workflow_run_name(br#"{"workflow_run":{"id":1}}"#), None);
    assert_eq!(workflow_run_name(br#"{"workflow_run":{"name":5}}"#), None);
    assert_eq!(workflow_run_name(br#"[1,2]"#), None);
}

#[test]
fn classify_run_name_cases() {
    assert_eq!(classify_run_name(&None), PayloadKind::Unreadable);
    assert_eq!(
        classify_run_name(&Some("continuous-delivery".to_string())),
        PayloadKind::Delivery
    );
    assert_eq!(
        classify_run_name(&Some("continuous-integration".to_string())),
        PayloadKind::OtherWorkflow
    );
    assert_eq!(
        classify_run_name(&Some("Continuous-Delivery".to_string())),
        PayloadKind::OtherWorkflow
    );
    assert_eq!(classify_run_name(&Some(String::new())), PayloadKind::OtherWorkflow);
}

#[test]
fn classify_payload_cases() {
    assert_eq!(
        classify_payload(br#"{"workflow_run":{"name":"continuous-delivery"}}"#),
        PayloadKind::Delivery
    );
    assert_eq!(
        classify_payload(br#"{"workflow_run":{"name":"lint"}}"#),
        PayloadKind::OtherWorkflow
    );
    assert_eq!(classify_payload(b"{oops"), PayloadKind::Unreadable);
}

#[test]
fn constants() {
    assert_eq!(TARGET_WORKFLOW, "continuous-delivery");
    assert_eq!(DEPLOYMENT_NAME, "simple-budget");
}

#[test]
fn digits_only_strips_separators() {
    assert_eq!(
        digits_only(b"2024-03-05 14:07:09.123456789 UTC"),
        b"20240305140709123456789".to_vec()
    );
    assert_eq!(digits_only(b""), Vec::<u8>::new());
    assert_eq!(digits_only(b"UTC -:"), Vec::<u8>::new());
    assert_eq!(digits_only(b"0123456789"), b"0123456789".to_vec());
}

#[test]
fn release_label_is_digits_of_current_time() {
    let label = release_label().unwrap();
    assert!(label.len() >= 14);
    assert!(label.iter().all(|c| c.is_ascii_digit()));
    assert!(label.starts_with(b"20"));
}

#[test]
fn merge_patch_exact_document() {
    let doc = merge_patch(b"20240305140709");
    assert_eq!(
        String::from_utf8(doc).unwrap(),
        r#"{"spec":{"template":{"metadata":{"labels":{"released":"20240305140709"}}}}}"#
    );
}

#[test]
fn rollout_patch_is_json_with_digit_label() {
    let doc = rollout_patch().unwrap();
    let v: serde_json::Value = serde_json::from_slice(&doc).unwrap();
    let label = v["spec"]["template"]["metadata"]["labels"]["released"]
        .as_str()
        .unwrap();
    assert!(label.len() >= 14);
    assert!(label.chars().all(|c| c.is_ascii_digit()));
}

#[test]
fn rollout_patch_for_uses_clock_digits() {
    let doc = rollout_patch_for(b"2024-03-05 14:07:09.250 UTC");
    assert_eq!(
        String::from_utf8(doc).unwrap(),
        r#"{"spec":{"template":{"metadata":{"labels":{"released":"20240305140709250"}}}}}"#
    );
    let same_second = rollout_patch_for(b"2024-03-05 14:07:09 UTC");
    let next_second = rollout_patch_for(b"2024-03-05 14:07:10 UTC");
    assert_ne!(same_second, next_second);
    assert_eq!(same_second, rollout_patch_for(b"2024-03-05 14:07:09 UTC"));
}

#[test]
fn workflow_run_name_ignores_other_fields() {
    assert_eq!(
        workflow_run_name(br#"{"workflow_run":{"name":"deploy","x":[1]},"y":null}"#),
        Some("deploy".to_string())
    );
    assert_eq!(
        workflow_run_name(br#"{"workflow_run":{"name":"caf\u00e9"}}"#),
        Some("caf\u{e9}".to_string())
    );
}
