use zeroclaw::consent::{
    build_security_risk_consent_reasons, consent_reason_keys, onboard_warning_keys,
    security_risk_consent_reason_keys, ConsentReasonCode, OnboardWarningCode,
    SecurityRiskConsentReasonCode, ONBOARD_QUICK_DRY_RUN_REPORT_TYPE,
    PRESET_APPLY_DRY_RUN_REPORT_TYPE, PRESET_EXPORT_REPORT_TYPE,
    PRESET_IMPORT_DRY_RUN_REPORT_TYPE, PRESET_INTENT_ORCHESTRATION_REPORT_TYPE,
    SECURITY_PROFILE_CHANGE_REPORT_TYPE, SECURITY_PROFILE_CHANGE_SCHEMA_VERSION,
    SECURITY_PROFILE_RECOMMEND_REPORT_TYPE,
};
use zeroclaw::onboard::{evaluate_onboard_quick_risk_requirements, validate_onboard_command_mode};
use zeroclaw::security::{autonomy_config_for_security_profile_id, build_security_profile_change_report};

#[test]
fn onboard_runtime_validation_rejects_intent_with_interactive_mode() {
    let error = validate_onboard_command_mode(
        true, false, false, false, false, false, false, false, false, true, false, false, false,
        false, false, false,
    )
    .expect_err("intent should not be accepted with --interactive");
    assert!(
        error
            .to_string()
            .contains("`--intent` is supported in quick onboard mode only"),
        "unexpected error message: {error}"
    );
}

#[test]
fn onboard_runtime_validation_rejects_channels_only_with_quick_flags() {
    let error = validate_onboard_command_mode(
        false, true, false, false, true, false, false, false, false, false, false, false, false,
        false, false, false,
    )
    .expect_err("--channels-only should reject quick flags");
    assert!(
        error
            .to_string()
            .contains("--channels-only does not accept quick-setup or rebuild flags"),
        "unexpected error message: {error}"
    );
}

#[test]
fn onboard_runtime_validation_requires_yes_rebuild_with_rebuild_flag() {
    let error = validate_onboard_command_mode(
        false, false, false, false, false, false, false, false, false, false, false, false, false,
        false, false, true,
    )
    .expect_err("--yes-rebuild without --rebuild should fail");
    assert!(
        error
            .to_string()
            .contains("`--yes-rebuild` requires `--rebuild`."),
        "unexpected error message: {error}"
    );
}

#[test]
fn onboard_runtime_validation_requires_dry_run_for_json_mode() {
    let error = validate_onboard_command_mode(
        false, false, false, false, false, false, false, false, false, false, false, false, false,
        true, false, false,
    )
    .expect_err("onboard --json should require --dry-run");
    assert!(
        error
            .to_string()
            .contains("`--json` requires `--dry-run` in onboard quick mode."),
        "unexpected error message: {error}"
    );
}

#[test]
fn onboard_quick_risk_requirements_reject_risky_pack_without_consent() {
    let error = evaluate_onboard_quick_risk_requirements(
        &["tools-update".to_string()],
        "strict",
        false,
        false,
    )
    .expect_err("non-dry-run risky selection should require explicit consent");
    assert!(
        error
            .to_string()
            .contains("Selection includes risky packs [tools-update]"),
        "unexpected error message: {error}"
    );
}

#[test]
fn onboard_quick_risk_requirements_warn_in_dry_run_without_consent() {
    let assessment = evaluate_onboard_quick_risk_requirements(
        &["tools-update".to_string()],
        "balanced",
        false,
        true,
    )
    .expect("dry-run should allow preview without explicit consent");
    assert_eq!(assessment.warnings.len(), 2);
    assert_eq!(
        assessment.consent_reasons,
        vec![
            ConsentReasonCode::RiskyPack,
            ConsentReasonCode::SecurityNonStrict
        ]
    );
    assert_eq!(
        assessment.warning_codes,
        vec![
            OnboardWarningCode::RiskyPackRequiresConsent,
            OnboardWarningCode::SecurityNonStrictRequiresConsent
        ]
    );
    assert!(
        assessment
            .warnings
            .iter()
            .any(|line| line.contains("risky packs [tools-update]")),
        "missing risky pack warning: {:?}",
        assessment.warnings
    );
    assert!(
        assessment
            .warnings
            .iter()
            .any(|line| line.contains("Security profile 'balanced' is non-strict")),
        "missing security profile warning: {:?}",
        assessment.warnings
    );
}

#[test]
fn onboard_quick_risk_requirements_allow_consented_selection() {
    let assessment = evaluate_onboard_quick_risk_requirements(
        &["tools-update".to_string()],
        "balanced",
        true,
        false,
    )
    .expect("consented selection should pass");
    assert!(
        assessment.warnings.is_empty(),
        "warnings should be empty when consent is provided: {:?}",
        assessment.warnings
    );
    assert!(
        assessment.consent_reasons.is_empty(),
        "consent reasons should be empty when consent is provided: {:?}",
        assessment.consent_reasons
    );
    assert!(
        assessment.warning_codes.is_empty(),
        "warning codes should be empty when consent is provided: {:?}",
        assessment.warning_codes
    );
}

#[test]
fn consent_reason_keys_are_stable_and_ordered() {
    let keys = consent_reason_keys(&[
        ConsentReasonCode::RiskyPack,
        ConsentReasonCode::Rebuild,
        ConsentReasonCode::SecurityNonStrict,
    ]);
    assert_eq!(
        keys,
        vec![
            "consent.reason.risky_pack".to_string(),
            "consent.reason.rebuild".to_string(),
            "consent.reason.security_non_strict".to_string()
        ]
    );
}

#[test]
fn onboard_warning_keys_are_stable_and_ordered() {
    let keys = onboard_warning_keys(&[
        OnboardWarningCode::RiskyPackRequiresConsent,
        OnboardWarningCode::SecurityNonStrictRequiresConsent,
    ]);
    assert_eq!(
        keys,
        vec![
            "onboard.warning.risky_pack_requires_consent".to_string(),
            "onboard.warning.security_non_strict_requires_consent".to_string()
        ]
    );
}

#[test]
fn security_risk_consent_reasons_and_keys_are_stable_and_ordered() {
    let reasons = build_security_risk_consent_reasons(true, true);
    assert_eq!(
        reasons,
        vec![
            SecurityRiskConsentReasonCode::NonStrictProfile,
            SecurityRiskConsentReasonCode::NonCliAutoApproval
        ]
    );
    let keys = security_risk_consent_reason_keys(&reasons);
    assert_eq!(
        keys,
        vec![
            "security.risk_reason.non_strict_profile".to_string(),
            "security.risk_reason.non_cli_auto_approval".to_string()
        ]
    );
}

#[test]
fn security_profile_change_report_contains_schema_and_reason_keys() {
    let current = autonomy_config_for_security_profile_id("strict")
        .expect("strict profile should exist");
    let target = autonomy_config_for_security_profile_id("balanced")
        .expect("balanced profile should exist");
    let reasons = build_security_risk_consent_reasons(true, false);
    let report =
        build_security_profile_change_report(&current, &target, "balanced", &reasons, true);
    assert_eq!(
        report.schema_version,
        SECURITY_PROFILE_CHANGE_SCHEMA_VERSION
    );
    assert_eq!(report.report_type, SECURITY_PROFILE_CHANGE_REPORT_TYPE);
    assert!(report.requires_explicit_risk_consent);
    assert_eq!(report.risk_consent_reasons, reasons);
    assert_eq!(
        report.risk_consent_reason_keys,
        vec!["security.risk_reason.non_strict_profile".to_string()]
    );
}

#[test]
fn machine_json_report_type_constants_are_stable() {
    assert_eq!(ONBOARD_QUICK_DRY_RUN_REPORT_TYPE, "onboard.quick_dry_run");
    assert_eq!(
        PRESET_INTENT_ORCHESTRATION_REPORT_TYPE,
        "preset.intent_orchestration"
    );
    assert_eq!(PRESET_APPLY_DRY_RUN_REPORT_TYPE, "preset.apply_dry_run");
    assert_eq!(PRESET_IMPORT_DRY_RUN_REPORT_TYPE, "preset.import_dry_run");
    assert_eq!(PRESET_EXPORT_REPORT_TYPE, "preset.export");
    assert_eq!(
        SECURITY_PROFILE_CHANGE_REPORT_TYPE,
        "security.profile_change"
    );
    assert_eq!(
        SECURITY_PROFILE_RECOMMEND_REPORT_TYPE,
        "security.profile_recommendation"
    );
}
