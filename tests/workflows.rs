use zeroclaw::auth::{
    checked_token, login_provider_check, paste_redirect_check, pending_from_record,
    pending_record_to_store, pending_verifier_source, OAuthProvider, PendingOAuthLogin,
    PendingOAuthLoginRecord, VerifierSource,
};
use zeroclaw::browser::BrowserBackendKind;
use zeroclaw::consent::{ConsentReasonCode, SecurityRiskConsentReasonCode};
use zeroclaw::reports::{
    build_preset_apply_dry_run_report, build_preset_import_dry_run_report,
    check_intent_mode, choose_base_selection, command_requests_machine_json, CommandKind,
};
use zeroclaw::security::{
    autonomy_config_for_security_profile_id, plan_security_change, NonCliApprovalArg,
    SecurityProfileArg,
};
use zeroclaw::selection::{selection_diff, ImportMode, WorkspacePresetSelection};
use zeroclaw::text::{is_white_space, trim};

fn pending() -> PendingOAuthLogin {
    PendingOAuthLogin {
        provider: "openai".into(),
        profile: "default".into(),
        code_verifier: "verifier".into(),
        state: "st".into(),
        created_at: "2026-01-01T00:00:00Z".into(),
    }
}

#[test]
fn pending_login_is_stored_encrypted_only() {
    let rec = pending_record_to_store(&pending(), "enc:abc".into());
    assert_eq!(rec.code_verifier, None);
    assert_eq!(rec.encrypted_code_verifier.as_deref(), Some("enc:abc"));
    assert_eq!(rec.provider.as_deref(), Some("openai"));
    match pending_verifier_source(&rec, "openai").unwrap() {
        VerifierSource::Encrypted(c) => assert_eq!(c, "enc:abc"),
        VerifierSource::Plain(p) => panic!("unexpected plain {p}"),
    }
}

#[test]
fn legacy_and_missing_verifiers() {
    let legacy = PendingOAuthLoginRecord {
        provider: None,
        profile: "work".into(),
        code_verifier: Some("plain".into()),
        encrypted_code_verifier: None,
        state: "s".into(),
        created_at: "t".into(),
    };
    match pending_verifier_source(&legacy, "gemini").unwrap() {
        VerifierSource::Plain(v) => assert_eq!(v, "plain"),
        VerifierSource::Encrypted(c) => panic!("unexpected encrypted {c}"),
    }
    let restored = pending_from_record(legacy.clone(), "gemini", "plain".into());
    assert_eq!(restored.provider, "gemini");
    assert_eq!(restored.profile, "work");
    let empty = PendingOAuthLoginRecord { code_verifier: None, ..legacy };
    assert_eq!(
        pending_verifier_source(&empty, "gemini").unwrap_err(),
        "Pending gemini login is missing code verifier"
    );
}

#[test]
fn paste_redirect_refusals() {
    let p = pending();
    assert!(paste_redirect_check("openai-codex", Some(&p), "default").is_ok());
    assert_eq!(
        paste_redirect_check("anthropic", Some(&p), "default").unwrap_err(),
        "`auth paste-redirect` supports --provider openai-codex or gemini"
    );
    assert_eq!(
        paste_redirect_check("gemini", None, "default").unwrap_err(),
        "No pending Gemini login found. Run `zeroclaw auth login --provider gemini` first."
    );
    assert_eq!(
        paste_redirect_check("openai-codex", Some(&p), "work").unwrap_err(),
        "Pending login profile mismatch: pending=default, requested=work"
    );
    assert_eq!(login_provider_check("gemini"), Ok(OAuthProvider::Gemini));
    assert_eq!(OAuthProvider::OpenAiCodex.pending_key(), "openai");
    assert_eq!(
        login_provider_check("x").unwrap_err(),
        "`auth login` supports --provider openai-codex or gemini, got: x"
    );
}

#[test]
fn pasted_tokens_are_trimmed() {
    assert_eq!(checked_token("  sk-123\n"), Ok("sk-123".to_string()));
    assert_eq!(checked_token(" \t ").unwrap_err(), "Token cannot be empty");
}

#[test]
fn whitespace_matches_std() {
    for c in ['\t', '\n', ' ', '\u{85}', '\u{a0}', '\u{2003}', '\u{3000}', 'a', '\u{200b}', '_'] {
        assert_eq!(is_white_space(c), c.is_whitespace(), "{c:?}");
    }
    assert_eq!(trim("\u{3000} x y \u{a0}"), "x y");
    assert_eq!(BrowserBackendKind::parse(" Agent-Browser ").unwrap(), BrowserBackendKind::AgentBrowser);
}

#[test]
fn security_change_plan_applies_override() {
    let current = autonomy_config_for_security_profile_id("strict").unwrap();
    let plan = plan_security_change(&current, SecurityProfileArg::Balanced, Some(NonCliApprovalArg::Auto));
    assert!(plan.target.allow_non_cli_auto_approval);
    assert!(plan.enabling_non_cli_auto_approval);
    assert_eq!(
        plan.risk_consent_reasons,
        vec![SecurityRiskConsentReasonCode::NonStrictProfile, SecurityRiskConsentReasonCode::NonCliAutoApproval]
    );
    let strict = plan_security_change(&current, SecurityProfileArg::Strict, None);
    assert!(strict.risk_consent_reasons.is_empty());
}

fn sel(id: &str, packs: &[&str]) -> WorkspacePresetSelection {
    WorkspacePresetSelection {
        preset_id: id.into(),
        packs: packs.iter().map(|p| p.to_string()).collect(),
        added_packs: Vec::new(),
    }
}

#[test]
fn dry_run_reports_carry_schema_and_consent() {
    let before = sel("minimal", &["core"]);
    let after = sel("automation", &["core", "tools-update"]);
    let diff = selection_diff(Some(&before), &after);
    let report = build_preset_apply_dry_run_report(
        Some(before.clone()),
        after.clone(),
        diff.clone(),
        vec!["tools-update".into()],
        vec![ConsentReasonCode::RiskyPack],
        Vec::new(),
        false,
    );
    assert_eq!(report.schema_version, 1);
    assert_eq!(report.report_type, "preset.apply_dry_run");
    assert!(report.consent.apply_requires_explicit_consent);
    assert_eq!(report.consent.apply_consent_reason_keys, vec!["consent.reason.risky_pack".to_string()]);
    assert!(!report.workspace_written);
    let import = build_preset_import_dry_run_report(
        ImportMode::Merge,
        "x.json".into(),
        Some(before),
        after,
        diff,
        Vec::new(),
        Vec::new(),
        Vec::new(),
        false,
    );
    assert_eq!(import.report_type, "preset.import_dry_run");
    assert_eq!(import.import_mode, "merge");
    assert!(!import.consent.apply_requires_explicit_consent);
}

#[test]
fn command_gating_decisions() {
    assert!(command_requests_machine_json(CommandKind::PresetValidate, true));
    assert!(!command_requests_machine_json(CommandKind::Other, true));
    assert!(!command_requests_machine_json(CommandKind::Onboard, false));
    assert_eq!(
        check_intent_mode(true, false, true).unwrap_err(),
        "`preset intent --json` is plan-only and cannot be combined with `--apply`."
    );
    assert!(check_intent_mode(true, true, false).is_ok());
    let chosen = choose_base_selection(None, Some(sel("current", &[])), sel("minimal", &[]));
    assert_eq!(chosen.preset_id, "current");
    let chosen = choose_base_selection(None, None, sel("minimal", &[]));
    assert_eq!(chosen.preset_id, "minimal");
}

#[test]
fn machine_json_mode_detects_supported_json_commands() {
    let cases: Vec<(CommandKind, bool, bool)> = vec![
        (CommandKind::Onboard, true, true),
        (CommandKind::PresetIntent, true, true),
        (CommandKind::PresetApply, true, true),
        (CommandKind::PresetImport, true, true),
        (CommandKind::PresetExport, true, true),
        (CommandKind::PresetValidate, true, true),
        (CommandKind::PresetApply, false, false),
        (CommandKind::PresetImport, false, false),
        (CommandKind::PresetExport, false, false),
        (CommandKind::SecurityProfileSet, true, true),
        (CommandKind::SecurityProfileRecommend, true, true),
        (CommandKind::Onboard, false, false),
        (CommandKind::PresetIntent, false, false),
        (CommandKind::SecurityProfileSet, false, false),
        (CommandKind::Other, false, false),
    ];
    for (kind, json, expected_machine_json) in cases {
        assert_eq!(
            command_requests_machine_json(kind, json),
            expected_machine_json,
            "unexpected machine-json mode for {:?}",
            kind
        );
    }
}
