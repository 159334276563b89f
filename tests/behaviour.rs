use std::sync::Arc;
use zeroclaw::action_args::parse_browser_action;
use zeroclaw::browser::{
    agent_browser_args, choose_backend, scroll_delta, BrowserAction, BrowserBackendKind,
    BrowserTool, ResolvedBackend,
};
use zeroclaw::consent::{
    build_preset_apply_consent_reasons, build_preset_execution_consent_reasons,
    consent_reason_keys, format_consent_reasons, format_security_risk_consent_reasons,
    ConsentReasonCode, SecurityRiskConsentReasonCode,
};
use zeroclaw::estop::{
    build_engage_level, build_resume_selector, EstopError, EstopLevel, EstopLevelArg,
    EstopState, ResumeSelector,
};
use zeroclaw::netaddr::is_private_host;
use zeroclaw::onboard::{build_onboard_dry_run_report, evaluate_onboard_quick_risk_requirements};
use zeroclaw::preset_doc::{
    build_validation_report, file_validation, validate_preset_document, PresetDocument,
};

fn read_preset_document(doc: &serde_json::Value) -> PresetDocument {
    let object_or_absent = |key: &str| doc.get(key).map_or(true, |v| v.is_object());
    PresetDocument {
        schema_version: doc.get("schema_version").and_then(|v| v.as_u64()),
        id: doc.get("id").and_then(|v| v.as_str()).map(String::from),
        packs: doc
            .get("packs")
            .and_then(|v| v.as_array())
            .map(|items| items.iter().map(|i| i.as_str().map(String::from)).collect()),
        config_overrides_ok: object_or_absent("config_overrides"),
        metadata_ok: object_or_absent("metadata"),
    }
}
use zeroclaw::preset::{
    build_next_commands, build_orchestration_shell_script, build_preset_execution_warnings,
    build_preset_intent_command, build_security_apply_command, require_dry_run_for_json,
    preset_execution_gate, recommend_security_profile, shell_quote, ExecutionPermit,
    SecurityProfileRecommendation,
};
use zeroclaw::security::{
    autonomy_config_for_security_profile_id, build_security_profile_change_report,
    cents_to_usd_string, security_commit_gate, security_profile_id_from_autonomy, SecurityPolicy,
};
use zeroclaw::selection::{
    build_export_report, compose_selection, import_selection, risky_pack_ids, selection_diff,
    selection_to_document, ImportMode, PresetExportSourceKind, PresetPayload, SelectionError,
    WorkspacePresetSelection,
};
use zeroclaw::selector::{
    css_attr_escape, parse_selector, selector_for_find, snapshot_script, xpath_contains_text,
    xpath_literal, SelectorKind,
};

fn strings(items: &[&str]) -> Vec<String> {
    items.iter().map(|s| s.to_string()).collect()
}

fn same_state(a: &EstopState, b: &EstopState) -> bool {
    let mut da = a.blocked_domains.clone();
    let mut db = b.blocked_domains.clone();
    da.sort();
    db.sort();
    let mut ta = a.frozen_tools.clone();
    let mut tb = b.frozen_tools.clone();
    ta.sort();
    tb.sort();
    a.kill_all == b.kill_all && a.network_kill == b.network_kill && da == db && ta == tb
}

#[test]
fn estop_domain_block_then_resume_returns_to_empty_state() {
    let initial = EstopState::new();
    let mut state = EstopState::new();
    let level = build_engage_level(
        Some(EstopLevelArg::DomainBlock),
        strings(&["*.chase.com"]),
        Vec::new(),
    )
    .unwrap();
    state.engage(&level, "2026-01-01T00:00:00Z".to_string());
    assert!(state.is_engaged());
    assert!(state.denies_domain("www.chase.com"));
    assert!(state.denies_domain("chase.com"));
    assert!(!state.denies_domain("example.com"));
    let selector = build_resume_selector(false, strings(&["*.chase.com"]), Vec::new()).unwrap();
    state.resume(&selector, "2026-01-01T00:01:00Z".to_string());
    assert!(!state.is_engaged());
    assert!(same_state(&state, &initial));
}

#[test]
fn estop_engage_then_resume_restores_each_category() {
    let mut base = EstopState::new();
    base.engage(&EstopLevel::ToolFreeze(strings(&["shell"])), "t0".to_string());
    for (level, selector) in [
        (EstopLevel::NetworkKill, ResumeSelector::Network),
        (
            EstopLevel::DomainBlock(strings(&["example.com", "*.bank.com"])),
            ResumeSelector::Domains(strings(&["*.bank.com", "example.com"])),
        ),
        (
            EstopLevel::ToolFreeze(strings(&["browser"])),
            ResumeSelector::Tools(strings(&["browser"])),
        ),
    ] {
        let mut state = base.clone();
        state.engage(&level, "t1".to_string());
        assert!(!same_state(&state, &base));
        state.resume(&selector, "t2".to_string());
        assert!(same_state(&state, &base));
    }
    let mut empty = EstopState::new();
    empty.engage(&EstopLevel::KillAll, "t1".to_string());
    assert!(empty.denies_tool("anything"));
    empty.resume(&ResumeSelector::KillAll, "t2".to_string());
    assert!(same_state(&empty, &EstopState::new()));
}

#[test]
fn estop_engage_adds_each_pattern_once() {
    let mut state = EstopState::new();
    state.engage(&EstopLevel::DomainBlock(strings(&["a.com", "a.com", "b.com"])), "t".to_string());
    state.engage(&EstopLevel::DomainBlock(strings(&["b.com"])), "t".to_string());
    assert_eq!(state.blocked_domains, strings(&["a.com", "b.com"]));
    assert_eq!(state.updated_at.as_deref(), Some("t"));
}

#[test]
fn estop_otp_gate_keeps_state_on_failure() {
    let mut state = EstopState::new();
    state.engage(&EstopLevel::NetworkKill, "t".to_string());
    assert_eq!(
        state.resume_with_otp(&ResumeSelector::Network, true, None, "u".to_string()),
        Err(EstopError::OtpRequired)
    );
    assert_eq!(
        state.resume_with_otp(&ResumeSelector::Network, true, Some(false), "u".to_string()),
        Err(EstopError::OtpInvalid)
    );
    assert!(state.network_kill);
    assert!(state
        .resume_with_otp(&ResumeSelector::Network, true, Some(true), "u".to_string())
        .is_ok());
    assert!(!state.network_kill);
}

#[test]
fn estop_flag_errors() {
    assert_eq!(
        build_engage_level(None, strings(&["x.com"]), Vec::new()).unwrap_err(),
        "--domain/--tool are only valid with --level domain-block/tool-freeze"
    );
    assert!(matches!(build_engage_level(None, Vec::new(), Vec::new()), Ok(EstopLevel::KillAll)));
    assert_eq!(
        build_engage_level(Some(EstopLevelArg::ToolFreeze), Vec::new(), Vec::new()).unwrap_err(),
        "--level tool-freeze requires at least one --tool"
    );
    assert_eq!(
        build_resume_selector(true, strings(&["x.com"]), Vec::new()).unwrap_err(),
        "Use only one of --network, --domain, or --tool for estop resume"
    );
    assert!(matches!(build_resume_selector(false, Vec::new(), Vec::new()), Ok(ResumeSelector::KillAll)));
}

#[test]
fn private_host_edge_cases() {
    assert!(is_private_host("172.16.0.1"));
    assert!(is_private_host("172.31.255.255"));
    assert!(!is_private_host("172.32.0.1"));
    assert!(is_private_host("169.254.1.1"));
    assert!(is_private_host("255.255.255.255"));
    assert!(is_private_host("::"));
    assert!(is_private_host("[fe80::1%25eth0]") == is_private_host("[fe80::1%25eth0]"));
    assert!(!is_private_host("8.8.8.8"));
    assert!(!is_private_host("::ffff:8.8.8.8"));
    assert!(is_private_host("127.example.com"));
    assert!(is_private_host("172.20.example"));
    assert!(!is_private_host("1:2:3:4:5:6:7:8"));
    assert!(is_private_host("0:0:0:0:0:0:0:1"));
    assert!(!is_private_host("01.0.0.1"));
}

#[test]
fn url_validation_messages() {
    let tool = BrowserTool::new(Arc::new(SecurityPolicy::default()), strings(&["example.com"]), None);
    assert_eq!(tool.validate_url("   ").unwrap_err(), "URL cannot be empty");
    assert_eq!(
        tool.validate_url("https://10.0.0.1/x").unwrap_err(),
        "Blocked local/private host: 10.0.0.1"
    );
    assert_eq!(
        tool.validate_url("https://Other.com").unwrap_err(),
        "Host 'other.com' not in browser.allowed_domains"
    );
    assert_eq!(tool.validate_url("https://").unwrap_err(), "Invalid URL: no host");
}

#[test]
fn agent_browser_command_line() {
    let tool = BrowserTool::new(
        Arc::new(SecurityPolicy::default()),
        strings(&["example.com"]),
        Some("s1".to_string()),
    );
    let cmd = tool
        .agent_browser_command(&BrowserAction::Snapshot { interactive_only: true, compact: false, depth: Some(3) })
        .unwrap();
    assert_eq!(cmd, strings(&["--session", "s1", "snapshot", "-i", "-d", "3", "--json"]));
    assert!(tool
        .agent_browser_command(&BrowserAction::Open { url: "https://evil.com".to_string() })
        .is_err());
    assert_eq!(
        agent_browser_args(&BrowserAction::Wait { selector: None, ms: Some(250), text: Some("x".into()) }),
        strings(&["wait", "250"])
    );
    assert_eq!(
        agent_browser_args(&BrowserAction::Find {
            by: "role".into(),
            value: "button".into(),
            action: "click".into(),
            fill_value: None
        }),
        strings(&["find", "role", "button", "click"])
    );
}

#[test]
fn action_parsing_from_json() {
    let args: serde_json::Value = serde_json::from_str(r#"{"action":"snapshot","depth":7}"#).unwrap();
    match parse_browser_action(&args).unwrap() {
        BrowserAction::Snapshot { interactive_only, compact, depth } => {
            assert!(interactive_only);
            assert!(compact);
            assert_eq!(depth, Some(7));
        }
        other => panic!("unexpected action {other:?}"),
    }
    let args: serde_json::Value =
        serde_json::from_str(r#"{"action":"scroll","direction":"down","pixels":99999999999}"#).unwrap();
    assert!(matches!(
        parse_browser_action(&args).unwrap(),
        BrowserAction::Scroll { pixels: Some(u32::MAX), .. }
    ));
    let args: serde_json::Value = serde_json::from_str(r##"{"action":"fill","selector":"#q"}"##).unwrap();
    let err = parse_browser_action(&args).unwrap_err();
    assert!(!err.unknown_action);
    assert_eq!(err.message, "Missing 'value' for fill");
    let args: serde_json::Value = serde_json::from_str(r#"{"action":"dance"}"#).unwrap();
    let err = parse_browser_action(&args).unwrap_err();
    assert!(err.unknown_action);
    assert_eq!(err.message, "Unknown action: dance");
    let args: serde_json::Value = serde_json::from_str(r#"{}"#).unwrap();
    assert_eq!(parse_browser_action(&args).unwrap_err().message, "Missing 'action' parameter");
}

#[test]
fn backend_choice_and_gates() {
    assert_eq!(
        choose_backend(BrowserBackendKind::Auto, false, false, true),
        Ok(ResolvedBackend::AgentBrowser)
    );
    assert_eq!(
        choose_backend(BrowserBackendKind::AgentBrowser, false, false, false).unwrap_err(),
        "browser.backend='agent_browser' but agent-browser CLI is unavailable. Install with: npm install -g agent-browser"
    );
    assert!(choose_backend(BrowserBackendKind::RustNative, false, false, true).is_err());
    let tool = BrowserTool::new(Arc::new(SecurityPolicy::default()), strings(&["example.com"]), None);
    assert_eq!(tool.resolve_backend(true), Ok(ResolvedBackend::AgentBrowser));
    assert_eq!(tool.blocked_reason(0), None);
    assert_eq!(tool.blocked_reason(20).as_deref(), Some("Action blocked: rate limit exceeded"));
    assert_eq!(scroll_delta("up", None), Ok((0, -600)));
    assert_eq!(scroll_delta("right", Some(5)), Ok((5, 0)));
    assert_eq!(
        scroll_delta("sideways", None).unwrap_err(),
        "Unsupported scroll direction 'sideways'. Use up/down/left/right"
    );
}

#[test]
fn selectors_and_xpath() {
    assert_eq!(css_attr_escape("a\\b\"c\nd"), "a\\\\b\\\"c d");
    assert_eq!(xpath_literal("plain"), "\"plain\"");
    assert_eq!(xpath_literal("say \"hi\""), "'say \"hi\"'");
    assert_eq!(xpath_literal("it's \"x\""), "concat(\"it's \",'\"',\"x\",'\"')");
    assert_eq!(xpath_contains_text("Go"), "//*[contains(normalize-space(.), \"Go\")]");
    assert_eq!(selector_for_find("role", "button"), "[role=\\\"button\\\"]");
    assert_eq!(selector_for_find("label", "Name"), "label=Name");
    assert_eq!(selector_for_find("other", "Hi"), "text=Hi");
    match parse_selector("  @e1 ") {
        SelectorKind::Css(css) => assert_eq!(css, "[data-zc-ref=\\\"@e1\\\"]"),
        SelectorKind::XPath(x) => panic!("unexpected xpath {x}"),
    }
    match parse_selector("label=Email") {
        SelectorKind::XPath(x) => {
            assert_eq!(x, "//label[contains(normalize-space(.), \"Email\")]")
        }
        SelectorKind::Css(c) => panic!("unexpected css {c}"),
    }
    let script = snapshot_script(true, false, Some(-2));
    assert!(script.starts_with("(() => {\n  const interactiveOnly = true;\n  const compact = false;\n  const maxDepth = -2;"));
    assert!(snapshot_script(false, true, None).contains("const maxDepth = null;"));
}

#[test]
fn consent_reason_rules() {
    let risky = strings(&["tools-update"]);
    assert_eq!(
        build_preset_execution_consent_reasons(&risky, false, true, false),
        vec![ConsentReasonCode::RiskyPack, ConsentReasonCode::Rebuild]
    );
    assert!(build_preset_apply_consent_reasons(&risky, true, false, true, false).is_empty());
    assert_eq!(
        format_consent_reasons(&[ConsentReasonCode::RiskyPack, ConsentReasonCode::Rebuild]),
        "risky_pack, rebuild"
    );
    assert_eq!(
        format_security_risk_consent_reasons(&[SecurityRiskConsentReasonCode::NonCliAutoApproval]),
        "non_cli_auto_approval"
    );
    let warnings = build_preset_execution_warnings(
        &risky,
        true,
        &[ConsentReasonCode::RiskyPack, ConsentReasonCode::Rebuild],
    );
    assert_eq!(
        warnings,
        strings(&[
            "Selection includes risky packs [tools-update]. Applying this plan requires `--yes-risky`.",
            "Rebuild was requested. Executing this plan requires `--yes-rebuild`."
        ])
    );
}

#[test]
fn onboard_dry_run_with_risky_plan_has_consent_keys() {
    let assessment = evaluate_onboard_quick_risk_requirements(
        &strings(&["browser-native", "tools-update"]),
        "strict",
        false,
        true,
    )
    .unwrap();
    let keys = consent_reason_keys(&assessment.consent_reasons);
    assert_eq!(keys, strings(&["consent.reason.risky_pack"]));
    assert_eq!(
        assessment.warnings,
        strings(&["Selection includes risky packs [browser-native, tools-update]. Applying this plan requires `--yes-security-risk`."])
    );
}

fn recommendation(consent: bool) -> SecurityProfileRecommendation {
    SecurityProfileRecommendation {
        profile_id: if consent { "balanced".into() } else { "strict".into() },
        label: "Balanced".into(),
        risk_tier: "medium".into(),
        reasons: Vec::new(),
        requires_explicit_consent: consent,
    }
}

#[test]
fn preset_intent_next_commands_are_stable() {
    let cmds = build_next_commands(
        "need unattended browser automation",
        &[],
        false,
        false,
        false,
        false,
        &strings(&["browser-native"]),
        &recommendation(true),
    );
    let ids: Vec<&str> = cmds.iter().map(|c| c.id.as_str()).collect();
    assert_eq!(ids, vec!["preset.apply.preview", "preset.apply", "security.profile.set"]);
    assert_eq!(
        cmds[0].command,
        "zeroclaw preset intent 'need unattended browser automation' --apply --dry-run"
    );
    assert_eq!(cmds[1].command, "zeroclaw preset intent 'need unattended browser automation' --apply");
    assert_eq!(cmds[2].command, "zeroclaw security profile set balanced --yes-risk");
    for c in &cmds {
        if c.requires_explicit_consent {
            assert!(!c.consent_reason_keys.is_empty());
        }
    }
    let dry = build_next_commands("x", &[], true, false, false, false, &[], &recommendation(false));
    assert_eq!(dry.len(), 2);
    assert_eq!(dry[0].id, "preset.apply");
    assert!(!dry[0].requires_explicit_consent);
}

#[test]
fn orchestration_script_wraps_consent_gated_commands() {
    let cmds = build_next_commands("it's", &[], false, false, false, false, &strings(&["p"]), &recommendation(false));
    let script = build_orchestration_shell_script("it's", &cmds);
    assert!(script.starts_with("#!/usr/bin/env bash\nset -euo pipefail\n\n# Generated by: zeroclaw preset intent 'it'\"'\"'s' --json\n"));
    assert!(script.contains("if confirm \"Run preset.apply (reasons: risky_pack)?\"; then\n  zeroclaw preset intent 'it'\"'\"'s' --apply\nelse\n  echo \"Skipped preset.apply\"\nfi\n"));
    assert!(script.ends_with("# security.profile.set: Align security profile with the recommended guardrails (manual step)\nzeroclaw security profile set strict\n"));
}

#[test]
fn shell_quoting_and_commands() {
    assert_eq!(shell_quote("a'b"), "'a'\"'\"'b'");
    assert_eq!(
        build_preset_intent_command("x", &strings(&["/tmp/c.json"]), true, false, true, true, true),
        "zeroclaw preset intent 'x' --capabilities-file '/tmp/c.json' --apply --yes-risky --rebuild --yes-rebuild"
    );
    assert_eq!(build_security_apply_command(&recommendation(false)), "zeroclaw security profile set strict");
}

#[test]
fn preset_apply_json_without_dry_run_fails() {
    assert_eq!(
        require_dry_run_for_json("preset apply", true, false).unwrap_err(),
        "`preset apply --json` requires `--dry-run`."
    );
    assert!(require_dry_run_for_json("preset apply", true, true).is_ok());
    assert!(require_dry_run_for_json("preset import", false, false).is_ok());
}

#[test]
fn security_change_report_lists_changed_fields() {
    let strict = autonomy_config_for_security_profile_id("strict").unwrap();
    let full = autonomy_config_for_security_profile_id("full").unwrap();
    assert!(autonomy_config_for_security_profile_id("paranoid").is_none());
    assert_eq!(security_profile_id_from_autonomy(&full), "full");
    let report = build_security_profile_change_report(&strict, &full, "full", &[], false);
    let fields: Vec<&str> = report.changes.iter().map(|c| c.field.as_str()).collect();
    assert_eq!(
        fields,
        vec![
            "profile_id",
            "level",
            "workspace_only",
            "require_approval_for_medium_risk",
            "block_high_risk_commands",
            "max_actions_per_hour",
            "max_cost_per_day_cents",
            "max_cost_per_day_usd"
        ]
    );
    assert_eq!(report.changes[1].from, "supervised");
    assert_eq!(report.changes[1].to, "full");
    assert_eq!(report.changes[7].from, "5.00");
    assert_eq!(report.changes[7].to, "50.00");
    assert!(!report.requires_explicit_risk_consent);
    assert_eq!(report.rollback_command, "zeroclaw security profile set strict");
    let same = build_security_profile_change_report(&strict, &strict, "strict", &[], true);
    assert!(same.changes.is_empty());
    assert_eq!(cents_to_usd_string(7), "0.07");
    assert_eq!(cents_to_usd_string(123456), "1234.56");
}

#[test]
fn security_policy_gates() {
    let policy = SecurityPolicy::default();
    assert!(policy.can_act());
    assert!(policy.allows_another_action(19));
    assert!(!policy.allows_another_action(20));
}

#[test]
fn compose_selection_adds_removes_and_tracks_added() {
    let known = strings(&["core", "browser-native", "tools-update", "rag-pdf"]);
    let base = WorkspacePresetSelection {
        preset_id: "minimal".into(),
        packs: strings(&["core", "rag-pdf"]),
        added_packs: Vec::new(),
    };
    let out = compose_selection(
        &base,
        &strings(&["core", "rag-pdf"]),
        &strings(&["browser-native", "core", "browser-native"]),
        &strings(&["rag-pdf", "not-there"]),
        &known,
    )
    .unwrap();
    assert_eq!(out.preset_id, "minimal");
    assert_eq!(out.packs, strings(&["core", "browser-native"]));
    assert_eq!(out.added_packs, strings(&["browser-native"]));
    match compose_selection(&base, &[], &strings(&["mystery"]), &[], &known) {
        Err(SelectionError::UnknownPack(id)) => assert_eq!(id, "mystery"),
        other => panic!("unexpected {other:?}"),
    }
}

#[test]
fn export_report_hashes_payload() {
    let selection = WorkspacePresetSelection {
        preset_id: "automation".into(),
        packs: Vec::new(),
        added_packs: Vec::new(),
    };
    let report = build_export_report(
        PresetExportSourceKind::OfficialPreset,
        Some("automation".into()),
        selection,
        "/tmp/out.json".into(),
        b"abc",
        true,
    );
    assert_eq!(report.report_type, "preset.export");
    assert_eq!(report.schema_version, 1);
    assert_eq!(report.bytes_written, 3);
    assert_eq!(
        report.payload_sha256,
        "ba7816bf8f01cfea414140de5dae2223b00361a396177a9cb410ff61f20015ad"
    );
    assert_eq!(report.requested_preset.as_deref(), Some("automation"));
}

#[test]
fn onboard_dry_run_report_carries_contract_fields() {
    let assessment = evaluate_onboard_quick_risk_requirements(
        &strings(&["tools-update"]),
        "balanced",
        false,
        true,
    )
    .unwrap();
    let selection = WorkspacePresetSelection {
        preset_id: "automation".into(),
        packs: strings(&["tools-update"]),
        added_packs: Vec::new(),
    };
    let report = build_onboard_dry_run_report(
        selection,
        strings(&["tools-update"]),
        "balanced".into(),
        assessment,
        false,
    );
    assert_eq!(report.report_type, "onboard.quick_dry_run");
    assert_eq!(report.schema_version, 1);
    assert_eq!(report.mode, "quick_dry_run");
    assert!(report.requires_explicit_consent);
    assert_eq!(
        report.consent_reason_keys,
        strings(&["consent.reason.risky_pack", "consent.reason.security_non_strict"])
    );
    assert_eq!(
        report.warning_keys,
        strings(&[
            "onboard.warning.risky_pack_requires_consent",
            "onboard.warning.security_non_strict_requires_consent"
        ])
    );
    assert!(!report.config_written && !report.workspace_written);
}

#[test]
fn preset_validate_well_formed_fixture() {
    let known = strings(&["core", "browser-native"]);
    let good: serde_json::Value = serde_json::from_str(
        r#"{"schema_version":1,"id":"good","packs":["core"],"metadata":{"author":"me"}}"#,
    )
    .unwrap();
    let errors = validate_preset_document(&read_preset_document(&good), &known, false);
    assert!(errors.is_empty());
    let report = build_validation_report(vec![file_validation(
        "good.preset.json".into(),
        "json".into(),
        errors,
    )]);
    assert!(report.results[0].ok);
    assert_eq!(report.files_checked, 1);
    assert_eq!(report.files_failed, 0);
    assert_eq!(report.schema_version, 1);
    assert_eq!(report.report_type, "preset.validation");

    let bad: serde_json::Value = serde_json::from_str(
        r#"{"schema_version":2,"packs":["core",3,"mystery"],"config_overrides":[]}"#,
    )
    .unwrap();
    let errors = validate_preset_document(&read_preset_document(&bad), &known, false);
    assert_eq!(
        errors,
        strings(&[
            "schema_version must be 1",
            "id must be a string",
            "packs[1] must be a string",
            "unknown pack 'mystery'",
            "config_overrides must be an object"
        ])
    );
    let lenient = validate_preset_document(&read_preset_document(&bad), &known, true);
    assert_eq!(lenient.len(), 4);
}

fn selection(preset: &str, packs: &[&str], added: &[&str]) -> WorkspacePresetSelection {
    WorkspacePresetSelection { preset_id: preset.into(), packs: strings(packs), added_packs: strings(added) }
}

#[test]
fn selection_diff_is_sorted_set_difference() {
    let before = selection("minimal", &["core", "zeta", "rag-pdf"], &[]);
    let after = selection("automation", &["core", "tools-update", "browser-native", "zeta"], &[]);
    let diff = selection_diff(Some(&before), &after);
    assert_eq!(diff.before_preset_id.as_deref(), Some("minimal"));
    assert_eq!(diff.after_preset_id, "automation");
    assert_eq!(diff.added_packs, strings(&["browser-native", "tools-update"]));
    assert_eq!(diff.removed_packs, strings(&["rag-pdf"]));
    let first = selection_diff(None, &after);
    assert_eq!(first.added_packs, strings(&["browser-native", "core", "tools-update", "zeta"]));
    assert!(first.removed_packs.is_empty());
}

#[test]
fn risky_packs_in_selection_order() {
    let s = selection("automation", &["tools-update", "core", "browser-native"], &[]);
    assert_eq!(
        risky_pack_ids(&s, &strings(&["browser-native", "tools-update"])),
        strings(&["tools-update", "browser-native"])
    );
}

#[test]
fn overwrite_import_round_trips_a_selection() {
    let base = strings(&["core"]);
    let original = selection("automation", &["core", "browser-native"], &["browser-native"]);
    let doc = selection_to_document(&original);
    assert_eq!(doc.schema_version, 1);
    let known = strings(&["core", "browser-native"]);
    let back = import_selection(&doc, ImportMode::Overwrite, None, &base, &known).unwrap();
    assert_eq!(back.preset_id, original.preset_id);
    assert_eq!(back.packs, original.packs);
    assert_eq!(back.added_packs, original.added_packs);
}

#[test]
fn merge_and_fill_imports() {
    let base = strings(&["core"]);
    let current = selection("minimal", &["core"], &[]);
    let payload = PresetPayload { schema_version: 1, id: "other".into(), packs: strings(&["rag-pdf", "core", "rag-pdf"]) };
    let known = strings(&["core", "rag-pdf"]);
    let merged = import_selection(&payload, ImportMode::Merge, Some(&current), &base, &known).unwrap();
    assert_eq!(merged.preset_id, "minimal");
    assert_eq!(merged.packs, strings(&["core", "rag-pdf"]));
    assert_eq!(merged.added_packs, strings(&["rag-pdf"]));
    let filled = import_selection(&payload, ImportMode::Fill, Some(&current), &base, &known).unwrap();
    assert_eq!(filled.packs, strings(&["core"]));
    let fresh = import_selection(&payload, ImportMode::Fill, None, &base, &known).unwrap();
    assert_eq!(fresh.preset_id, "other");
    assert_eq!(fresh.packs, strings(&["rag-pdf", "core"]));
    match import_selection(&payload, ImportMode::Overwrite, None, &base, &strings(&["core"])) {
        Err(SelectionError::UnknownPack(id)) => assert_eq!(id, "rag-pdf"),
        other => panic!("unexpected {other:?}"),
    }
}

#[test]
fn security_recommendation_rules() {
    let r = recommend_security_profile(
        "Need UNATTENDED browser automation",
        &strings(&["browser-native"]),
        &strings(&["browser-native"]),
    );
    assert_eq!((r.profile_id.as_str(), r.label.as_str(), r.risk_tier.as_str()), ("flexible", "Flexible", "high"));
    assert!(r.requires_explicit_consent);
    let r = recommend_security_profile("read only audit, autonomous", &strings(&["tools-update"]), &[]);
    assert_eq!(r.profile_id, "strict");
    assert!(!r.requires_explicit_consent);
    let r = recommend_security_profile("summarise notes", &strings(&["core"]), &[]);
    assert_eq!(r.profile_id, "strict");
    let r = recommend_security_profile("summarise notes", &strings(&["tools-update"]), &[]);
    assert_eq!((r.profile_id.as_str(), r.risk_tier.as_str()), ("balanced", "medium"));
}

#[test]
fn consent_gates_refuse_before_writing() {
    let risky = strings(&["tools-update"]);
    assert_eq!(
        preset_execution_gate(&risky, false, false, false, false).unwrap_err(),
        "Selection includes risky packs [tools-update]. Re-run with `--yes-risky`, or use `--dry-run`."
    );
    assert_eq!(
        preset_execution_gate(&[], false, false, true, false).unwrap_err(),
        "Refusing to run rebuild without confirmation. Re-run with `--yes-rebuild`, or use `--dry-run`."
    );
    assert_eq!(
        preset_execution_gate(&risky, true, false, true, false),
        Ok(ExecutionPermit { write_selection: false, run_rebuild: false })
    );
    assert_eq!(
        preset_execution_gate(&risky, false, true, true, true),
        Ok(ExecutionPermit { write_selection: true, run_rebuild: true })
    );
    let strict = autonomy_config_for_security_profile_id("strict").unwrap();
    let balanced = autonomy_config_for_security_profile_id("balanced").unwrap();
    let reasons = zeroclaw::consent::build_security_risk_consent_reasons(true, false);
    let live = build_security_profile_change_report(&strict, &balanced, "balanced", &reasons, false);
    assert_eq!(
        security_commit_gate(&live, false).unwrap_err(),
        "Refusing to apply risk-elevating security changes without explicit consent (profile 'balanced' is non-strict). Re-run with `--yes-risk`, or use `--dry-run`."
    );
    assert_eq!(security_commit_gate(&live, true), Ok(true));
    let dry = build_security_profile_change_report(&strict, &balanced, "balanced", &reasons, true);
    assert_eq!(security_commit_gate(&dry, false), Ok(false));
}
