//! Onboarding flag validation and the quick-mode risk assessment.
use vstd::prelude::*;
use crate::consent::{
    consent_code_key, consent_reason_keys, onboard_warning_keys, warning_code_key, ConsentReasonCode,
    OnboardWarningCode, ONBOARD_QUICK_DRY_RUN_REPORT_TYPE, ONBOARD_QUICK_DRY_RUN_SCHEMA_VERSION,
};
use crate::selection::WorkspacePresetSelection;
use crate::text::{join_strings, join_with, owned, str_eq, views};

verus! {

/// The first rule that a combination of onboarding flags breaks, as its message.
pub open spec fn onboard_mode_violation(
    interactive: bool,
    channels_only: bool,
    force: bool,
    api_key_present: bool,
    provider_present: bool,
    model_present: bool,
    memory_present: bool,
    preset_present: bool,
    pack_present: bool,
    intent_present: bool,
    security_profile_present: bool,
    yes_security_risk: bool,
    dry_run: bool,
    json: bool,
    rebuild: bool,
    yes_rebuild: bool,
) -> Option<Seq<char>> {
    if interactive && channels_only {
        Some("Use either --interactive or --channels-only, not both"@)
    } else if intent_present && (interactive || channels_only) {
        Some("`--intent` is supported in quick onboard mode only (without --interactive/--channels-only)."@)
    } else if intent_present && (preset_present || pack_present) {
        Some("`--intent` cannot be combined with `--preset` or `--pack`."@)
    } else if dry_run && (interactive || channels_only) {
        Some("`--dry-run` is supported in quick onboard mode only (without --interactive/--channels-only)."@)
    } else if json && (interactive || channels_only) {
        Some("`--json` is supported in quick onboard mode only (without --interactive/--channels-only)."@)
    } else if json && !dry_run {
        Some("`--json` requires `--dry-run` in onboard quick mode."@)
    } else if yes_rebuild && !rebuild {
        Some("`--yes-rebuild` requires `--rebuild`."@)
    } else if channels_only && (api_key_present || provider_present || model_present || memory_present
        || preset_present || pack_present || intent_present || security_profile_present
        || yes_security_risk || dry_run || json || rebuild || yes_rebuild) {
        Some("--channels-only does not accept quick-setup or rebuild flags (--api-key/--provider/--model/--memory/--preset/--pack/--intent/--security-profile/--yes-security-risk/--dry-run/--json/--rebuild/--yes-rebuild)."@)
    } else if channels_only && force {
        Some("--channels-only does not accept --force"@)
    } else {
        None
    }
}

/// Rejects onboarding flag combinations that cannot be honoured together.
pub fn validate_onboard_command_mode(
    interactive: bool,
    channels_only: bool,
    force: bool,
    api_key_present: bool,
    provider_present: bool,
    model_present: bool,
    memory_present: bool,
    preset_present: bool,
    pack_present: bool,
    intent_present: bool,
    security_profile_present: bool,
    yes_security_risk: bool,
    dry_run: bool,
    json: bool,
    rebuild: bool,
    yes_rebuild: bool,
) -> (r: Result<(), String>)
    ensures
        ({
            let v = onboard_mode_violation(interactive, channels_only, force, api_key_present,
                provider_present, model_present, memory_present, preset_present, pack_present,
                intent_present, security_profile_present, yes_security_risk, dry_run, json,
                rebuild, yes_rebuild);
            &&& r is Ok <==> v is None
            &&& r matches Err(e) ==> v == Some(e@)
        }),
{
    if interactive && channels_only {
        return Err(owned("Use either --interactive or --channels-only, not both"));
    }
    if intent_present && (interactive || channels_only) {
        return Err(owned("`--intent` is supported in quick onboard mode only (without --interactive/--channels-only)."));
    }
    if intent_present && (preset_present || pack_present) {
        return Err(owned("`--intent` cannot be combined with `--preset` or `--pack`."));
    }
    if dry_run && (interactive || channels_only) {
        return Err(owned("`--dry-run` is supported in quick onboard mode only (without --interactive/--channels-only)."));
    }
    if json && (interactive || channels_only) {
        return Err(owned("`--json` is supported in quick onboard mode only (without --interactive/--channels-only)."));
    }
    if json && !dry_run {
        return Err(owned("`--json` requires `--dry-run` in onboard quick mode."));
    }
    if yes_rebuild && !rebuild {
        return Err(owned("`--yes-rebuild` requires `--rebuild`."));
    }
    if channels_only && (api_key_present || provider_present || model_present || memory_present
        || preset_present || pack_present || intent_present || security_profile_present
        || yes_security_risk || dry_run || json || rebuild || yes_rebuild) {
        return Err(owned("--channels-only does not accept quick-setup or rebuild flags (--api-key/--provider/--model/--memory/--preset/--pack/--intent/--security-profile/--yes-security-risk/--dry-run/--json/--rebuild/--yes-rebuild)."));
    }
    if channels_only && force {
        return Err(owned("--channels-only does not accept --force"));
    }
    Ok(())
}

/// What a quick onboarding plan needs before it may be applied.
#[derive(Debug, Clone)]
pub struct OnboardQuickRiskAssessment {
    pub consent_reasons: Vec<ConsentReasonCode>,
    pub warning_codes: Vec<OnboardWarningCode>,
    pub warnings: Vec<String>,
}

pub open spec fn risky_packs_warning(ids: Seq<Seq<char>>) -> Seq<char> {
    "Selection includes risky packs ["@ + join_with(ids, ", "@)
        + "]. Applying this plan requires `--yes-security-risk`."@
}

pub open spec fn risky_packs_refusal(ids: Seq<Seq<char>>) -> Seq<char> {
    "Selection includes risky packs ["@ + join_with(ids, ", "@)
        + "]. Re-run with `--yes-security-risk`, or adjust preset/packs."@
}

pub open spec fn non_strict_warning(profile: Seq<char>) -> Seq<char> {
    "Security profile '"@ + profile + "' is non-strict. Applying this plan requires `--yes-security-risk`."@
}

pub open spec fn non_strict_refusal(profile: Seq<char>) -> Seq<char> {
    "Security profile '"@ + profile
        + "' requires explicit confirmation in quick mode. Re-run with `--yes-security-risk`."@
}

/// Consent for risky packs and for a non-strict profile both come from
/// `--yes-security-risk`. Without it a dry run records a reason, a warning
/// code and a warning for each; any other run is refused.
pub fn evaluate_onboard_quick_risk_requirements(
    risky_pack_ids: &[String],
    effective_security_profile: &str,
    yes_security_risk: bool,
    dry_run: bool,
) -> (r: Result<OnboardQuickRiskAssessment, String>)
    ensures
        ({
            let risky = risky_pack_ids@.len() > 0 && !yes_security_risk;
            let loose = effective_security_profile@ != "strict"@ && !yes_security_risk;
            let ids = views(risky_pack_ids@);
            &&& r is Err <==> !dry_run && (risky || loose)
            &&& r matches Err(e) ==> e@ == (if risky { risky_packs_refusal(ids) } else {
                non_strict_refusal(effective_security_profile@) })
            &&& r matches Ok(a) ==> {
                &&& a.consent_reasons@ == (if risky { seq![ConsentReasonCode::RiskyPack] } else { Seq::empty() })
                    + (if loose { seq![ConsentReasonCode::SecurityNonStrict] } else { Seq::empty() })
                &&& a.warning_codes@ == (if risky { seq![OnboardWarningCode::RiskyPackRequiresConsent] } else { Seq::empty() })
                    + (if loose { seq![OnboardWarningCode::SecurityNonStrictRequiresConsent] } else { Seq::empty() })
                &&& views(a.warnings@) == (if risky { seq![risky_packs_warning(ids)] } else { Seq::empty() })
                    + (if loose { seq![non_strict_warning(effective_security_profile@)] } else { Seq::empty() })
            }
        }),
{
    let mut consent_reasons: Vec<ConsentReasonCode> = Vec::new();
    let mut warning_codes: Vec<OnboardWarningCode> = Vec::new();
    let mut warnings: Vec<String> = Vec::new();
    let ghost ids = views(risky_pack_ids@);

    if risky_pack_ids.len() > 0 && !yes_security_risk {
        let listed = join_strings(risky_pack_ids, ", ");
        let mut text = owned("Selection includes risky packs [");
        text.append(listed.as_str());
        if dry_run {
            text.append("]. Applying this plan requires `--yes-security-risk`.");
            consent_reasons.push(ConsentReasonCode::RiskyPack);
            warning_codes.push(OnboardWarningCode::RiskyPackRequiresConsent);
            warnings.push(text);
        } else {
            text.append("]. Re-run with `--yes-security-risk`, or adjust preset/packs.");
            return Err(text);
        }
    }
    let ghost after_risky = views(warnings@);

    if !str_eq(effective_security_profile, "strict") && !yes_security_risk {
        if dry_run {
            let mut text = owned("Security profile '");
            text.append(effective_security_profile);
            text.append("' is non-strict. Applying this plan requires `--yes-security-risk`.");
            consent_reasons.push(ConsentReasonCode::SecurityNonStrict);
            warning_codes.push(OnboardWarningCode::SecurityNonStrictRequiresConsent);
            warnings.push(text);
            assert(views(warnings@) =~= after_risky.push(text@));
        } else {
            let mut text = owned("Security profile '");
            text.append(effective_security_profile);
            text.append("' requires explicit confirmation in quick mode. Re-run with `--yes-security-risk`.");
            return Err(text);
        }
    }

    assert(consent_reasons@ =~= (if risky_pack_ids@.len() > 0 && !yes_security_risk { seq![ConsentReasonCode::RiskyPack] } else { Seq::empty() })
        + (if effective_security_profile@ != "strict"@ && !yes_security_risk { seq![ConsentReasonCode::SecurityNonStrict] } else { Seq::empty() }));
    assert(warning_codes@ =~= (if risky_pack_ids@.len() > 0 && !yes_security_risk { seq![OnboardWarningCode::RiskyPackRequiresConsent] } else { Seq::empty() })
        + (if effective_security_profile@ != "strict"@ && !yes_security_risk { seq![OnboardWarningCode::SecurityNonStrictRequiresConsent] } else { Seq::empty() }));
    assert(views(warnings@) =~= (if risky_pack_ids@.len() > 0 && !yes_security_risk { seq![risky_packs_warning(ids)] } else { Seq::empty() })
        + (if effective_security_profile@ != "strict"@ && !yes_security_risk { seq![non_strict_warning(effective_security_profile@)] } else { Seq::empty() }));
    Ok(OnboardQuickRiskAssessment { consent_reasons, warning_codes, warnings })
}

/// The machine report of a quick onboarding dry run. Nothing is written.
#[derive(Debug, Clone)]
pub struct OnboardQuickDryRunReport {
    pub schema_version: u32,
    pub report_type: String,
    pub mode: String,
    pub planned_selection: WorkspacePresetSelection,
    pub risky_packs: Vec<String>,
    pub security_profile: String,
    pub requires_explicit_consent: bool,
    pub consent_reasons: Vec<ConsentReasonCode>,
    pub consent_reason_keys: Vec<String>,
    pub warning_codes: Vec<OnboardWarningCode>,
    pub warning_keys: Vec<String>,
    pub warnings: Vec<String>,
    pub rebuild_requested: bool,
    pub config_written: bool,
    pub workspace_written: bool,
}

/// Assembles the dry-run report from the plan and its risk assessment.
pub fn build_onboard_dry_run_report(
    planned_selection: WorkspacePresetSelection,
    risky_packs: Vec<String>,
    security_profile: String,
    assessment: OnboardQuickRiskAssessment,
    rebuild_requested: bool,
) -> (r: OnboardQuickDryRunReport)
    ensures
        r.schema_version == 1,
        r.report_type@ == "onboard.quick_dry_run"@,
        r.mode@ == "quick_dry_run"@,
        r.planned_selection == planned_selection,
        r.risky_packs == risky_packs,
        r.security_profile == security_profile,
        r.requires_explicit_consent == (assessment.consent_reasons@.len() > 0),
        r.consent_reasons == assessment.consent_reasons,
        r.consent_reason_keys@.len() == assessment.consent_reasons@.len(),
        forall|i: int| 0 <= i < assessment.consent_reasons@.len()
            ==> #[trigger] r.consent_reason_keys@[i]@ == consent_code_key(assessment.consent_reasons@[i]),
        r.warning_codes == assessment.warning_codes,
        r.warning_keys@.len() == assessment.warning_codes@.len(),
        forall|i: int| 0 <= i < assessment.warning_codes@.len()
            ==> #[trigger] r.warning_keys@[i]@ == warning_code_key(assessment.warning_codes@[i]),
        r.warnings == assessment.warnings,
        r.rebuild_requested == rebuild_requested,
        !r.config_written,
        !r.workspace_written,
{
    let consent_keys = consent_reason_keys(assessment.consent_reasons.as_slice());
    let warning_keys = onboard_warning_keys(assessment.warning_codes.as_slice());
    let needs_consent = assessment.consent_reasons.len() > 0;
    OnboardQuickDryRunReport {
        schema_version: ONBOARD_QUICK_DRY_RUN_SCHEMA_VERSION,
        report_type: owned(ONBOARD_QUICK_DRY_RUN_REPORT_TYPE),
        mode: owned("quick_dry_run"),
        planned_selection,
        risky_packs,
        security_profile,
        requires_explicit_consent: needs_consent,
        consent_reasons: assessment.consent_reasons,
        consent_reason_keys: consent_keys,
        warning_codes: assessment.warning_codes,
        warning_keys,
        warnings: assessment.warnings,
        rebuild_requested,
        config_written: false,
        workspace_written: false,
    }
}

} // verus!
