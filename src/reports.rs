//! Machine-JSON reports of the preset and security commands, and which
//! commands speak machine JSON.
use vstd::prelude::*;
use crate::consent::{
    consent_code_key, consent_reason_keys, ConsentReasonCode, PRESET_APPLY_DRY_RUN_REPORT_TYPE,
    PRESET_APPLY_DRY_RUN_SCHEMA_VERSION, PRESET_IMPORT_DRY_RUN_REPORT_TYPE,
    PRESET_IMPORT_DRY_RUN_SCHEMA_VERSION, PRESET_INTENT_ORCHESTRATION_REPORT_TYPE,
    PRESET_INTENT_ORCHESTRATION_SCHEMA_VERSION, SECURITY_PROFILE_RECOMMEND_REPORT_TYPE,
    SECURITY_PROFILE_RECOMMEND_SCHEMA_VERSION,
};
use crate::preset::{GeneratedNextCommand, SecurityProfileRecommendation};
use crate::security::SecurityProfileSnapshot;
use crate::selection::{SelectionDiff, WorkspacePresetSelection};
use crate::text::owned;

verus! {

/// What applying a plan needs, shared by the apply and import reports.
#[derive(Debug, Clone)]
pub struct ApplyConsent {
    pub apply_requires_explicit_consent: bool,
    pub apply_consent_reasons: Vec<ConsentReasonCode>,
    pub apply_consent_reason_keys: Vec<String>,
}

/// Whether `c` records exactly the given reasons, with their keys.
pub open spec fn consent_of(c: ApplyConsent, reasons: Seq<ConsentReasonCode>) -> bool {
    &&& c.apply_requires_explicit_consent == (reasons.len() > 0)
    &&& c.apply_consent_reasons@ == reasons
    &&& c.apply_consent_reason_keys@.len() == reasons.len()
    &&& forall|i: int| 0 <= i < reasons.len() ==> #[trigger] c.apply_consent_reason_keys@[i]@ == consent_code_key(reasons[i])
}

fn apply_consent(reasons: Vec<ConsentReasonCode>) -> (r: ApplyConsent)
    ensures
        consent_of(r, reasons@),
{
    let keys = consent_reason_keys(reasons.as_slice());
    ApplyConsent { apply_requires_explicit_consent: reasons.len() > 0, apply_consent_reasons: reasons, apply_consent_reason_keys: keys }
}

/// The `preset.apply_dry_run` report.
#[derive(Debug, Clone)]
pub struct PresetApplyDryRunReport {
    pub schema_version: u32,
    pub report_type: String,
    pub previous_selection: Option<WorkspacePresetSelection>,
    pub planned_selection: WorkspacePresetSelection,
    pub selection_diff: SelectionDiff,
    pub risky_packs: Vec<String>,
    pub consent: ApplyConsent,
    pub warnings: Vec<String>,
    pub rebuild_requested: bool,
    pub workspace_written: bool,
}

pub fn build_preset_apply_dry_run_report(
    previous_selection: Option<WorkspacePresetSelection>,
    planned_selection: WorkspacePresetSelection,
    selection_diff: SelectionDiff,
    risky_packs: Vec<String>,
    execution_consent_reasons: Vec<ConsentReasonCode>,
    warnings: Vec<String>,
    rebuild_requested: bool,
) -> (r: PresetApplyDryRunReport)
    ensures
        r.schema_version == 1,
        r.report_type@ == "preset.apply_dry_run"@,
        r.previous_selection == previous_selection,
        r.planned_selection == planned_selection,
        r.risky_packs == risky_packs,
        consent_of(r.consent, execution_consent_reasons@),
        r.warnings == warnings,
        r.rebuild_requested == rebuild_requested,
        !r.workspace_written,
{
    PresetApplyDryRunReport {
        schema_version: PRESET_APPLY_DRY_RUN_SCHEMA_VERSION,
        report_type: owned(PRESET_APPLY_DRY_RUN_REPORT_TYPE),
        previous_selection,
        planned_selection,
        selection_diff,
        risky_packs,
        consent: apply_consent(execution_consent_reasons),
        warnings,
        rebuild_requested,
        workspace_written: false,
    }
}

/// The `preset.import_dry_run` report.
#[derive(Debug, Clone)]
pub struct PresetImportDryRunReport {
    pub schema_version: u32,
    pub report_type: String,
    pub import_mode: String,
    pub source_path: String,
    pub previous_selection: Option<WorkspacePresetSelection>,
    pub planned_selection: WorkspacePresetSelection,
    pub selection_diff: SelectionDiff,
    pub risky_packs: Vec<String>,
    pub consent: ApplyConsent,
    pub warnings: Vec<String>,
    pub rebuild_requested: bool,
    pub workspace_written: bool,
}

pub open spec fn import_mode_text(mode: crate::selection::ImportMode) -> Seq<char> {
    match mode {
        crate::selection::ImportMode::Overwrite => "overwrite"@,
        crate::selection::ImportMode::Merge => "merge"@,
        crate::selection::ImportMode::Fill => "fill"@,
    }
}

pub fn build_preset_import_dry_run_report(
    mode: crate::selection::ImportMode,
    source_path: String,
    previous_selection: Option<WorkspacePresetSelection>,
    planned_selection: WorkspacePresetSelection,
    selection_diff: SelectionDiff,
    risky_packs: Vec<String>,
    execution_consent_reasons: Vec<ConsentReasonCode>,
    warnings: Vec<String>,
    rebuild_requested: bool,
) -> (r: PresetImportDryRunReport)
    ensures
        r.schema_version == 1,
        r.report_type@ == "preset.import_dry_run"@,
        r.import_mode@ == import_mode_text(mode),
        r.source_path == source_path,
        r.previous_selection == previous_selection,
        r.planned_selection == planned_selection,
        r.risky_packs == risky_packs,
        consent_of(r.consent, execution_consent_reasons@),
        r.warnings == warnings,
        r.rebuild_requested == rebuild_requested,
        !r.workspace_written,
{
    let import_mode = match mode {
        crate::selection::ImportMode::Overwrite => owned("overwrite"),
        crate::selection::ImportMode::Merge => owned("merge"),
        crate::selection::ImportMode::Fill => owned("fill"),
    };
    PresetImportDryRunReport {
        schema_version: PRESET_IMPORT_DRY_RUN_SCHEMA_VERSION,
        report_type: owned(PRESET_IMPORT_DRY_RUN_REPORT_TYPE),
        import_mode,
        source_path,
        previous_selection,
        planned_selection,
        selection_diff,
        risky_packs,
        consent: apply_consent(execution_consent_reasons),
        warnings,
        rebuild_requested,
        workspace_written: false,
    }
}

/// The `preset.intent_orchestration` report. The plan's own numbers are
/// attached by the caller that computed them.
#[derive(Debug, Clone)]
pub struct PresetIntentOrchestrationReport {
    pub schema_version: u32,
    pub report_type: String,
    pub intent: String,
    pub capability_sources: Vec<String>,
    pub planned_selection: WorkspacePresetSelection,
    pub risky_packs: Vec<String>,
    pub security_recommendation: SecurityProfileRecommendation,
    pub security_apply_command: String,
    pub next_commands: Vec<GeneratedNextCommand>,
}

pub fn build_intent_orchestration_report(
    intent: String,
    capability_sources: Vec<String>,
    planned_selection: WorkspacePresetSelection,
    risky_packs: Vec<String>,
    security_recommendation: SecurityProfileRecommendation,
    next_commands: Vec<GeneratedNextCommand>,
) -> (r: PresetIntentOrchestrationReport)
    ensures
        r.schema_version == 1,
        r.report_type@ == "preset.intent_orchestration"@,
        r.intent == intent,
        r.capability_sources == capability_sources,
        r.planned_selection == planned_selection,
        r.risky_packs == risky_packs,
        r.security_apply_command@ == "zeroclaw security profile set "@ + security_recommendation.profile_id@
            + (if security_recommendation.requires_explicit_consent { " --yes-risk"@ } else { ""@ }),
        r.next_commands == next_commands,
{
    let security_apply_command = crate::preset::build_security_apply_command(&security_recommendation);
    PresetIntentOrchestrationReport {
        schema_version: PRESET_INTENT_ORCHESTRATION_SCHEMA_VERSION,
        report_type: owned(PRESET_INTENT_ORCHESTRATION_REPORT_TYPE),
        intent,
        capability_sources,
        planned_selection,
        risky_packs,
        security_recommendation,
        security_apply_command,
        next_commands,
    }
}

/// The `security.profile_recommendation` report.
#[derive(Debug, Clone)]
pub struct SecurityProfileRecommendationReport {
    pub schema_version: u32,
    pub report_type: String,
    pub intent: String,
    pub current_profile: SecurityProfileSnapshot,
    pub recommended_profile: SecurityProfileRecommendation,
    pub planned_selection: WorkspacePresetSelection,
    pub risky_packs: Vec<String>,
    pub capability_sources: Vec<String>,
    pub consent: ApplyConsent,
    pub apply_command: String,
}

pub fn build_security_recommendation_report(
    intent: String,
    current_profile: SecurityProfileSnapshot,
    recommended_profile: SecurityProfileRecommendation,
    planned_selection: WorkspacePresetSelection,
    risky_packs: Vec<String>,
    capability_sources: Vec<String>,
) -> (r: SecurityProfileRecommendationReport)
    ensures
        r.schema_version == 1,
        r.report_type@ == "security.profile_recommendation"@,
        r.intent == intent,
        r.current_profile == current_profile,
        r.recommended_profile == recommended_profile,
        r.planned_selection == planned_selection,
        r.risky_packs == risky_packs,
        r.capability_sources == capability_sources,
        consent_of(r.consent, if recommended_profile.requires_explicit_consent {
            seq![ConsentReasonCode::SecurityNonStrict]
        } else {
            Seq::empty()
        }),
        r.apply_command@ == "zeroclaw security profile set "@ + recommended_profile.profile_id@
            + (if recommended_profile.requires_explicit_consent { " --yes-risk"@ } else { ""@ }),
{
    let reasons = crate::preset::build_security_apply_consent_reasons(&recommended_profile);
    let apply_command = crate::preset::build_security_apply_command(&recommended_profile);
    SecurityProfileRecommendationReport {
        schema_version: SECURITY_PROFILE_RECOMMEND_SCHEMA_VERSION,
        report_type: owned(SECURITY_PROFILE_RECOMMEND_REPORT_TYPE),
        intent,
        current_profile,
        recommended_profile,
        planned_selection,
        risky_packs,
        capability_sources,
        consent: apply_consent(reasons),
        apply_command,
    }
}

/// The base of `preset apply`: the named preset's selection, else the
/// current selection, else the default one.
pub fn choose_base_selection(
    named: Option<WorkspacePresetSelection>,
    current: Option<WorkspacePresetSelection>,
    default_selection: WorkspacePresetSelection,
) -> (r: WorkspacePresetSelection)
    ensures
        r == (match (named, current) {
            (Some(n), _) => n,
            (None, Some(c)) => c,
            (None, None) => default_selection,
        }),
{
    match named {
        Some(n) => n,
        None => match current {
            Some(c) => c,
            None => default_selection,
        },
    }
}

/// `preset intent` only plans when it prints JSON or emits a script.
pub fn check_intent_mode(json: bool, emit_shell: bool, apply: bool) -> (r: Result<(), String>)
    ensures
        r is Err <==> apply && (json || emit_shell),
        r matches Err(e) ==> e@ == (if json {
            "`preset intent --json` is plan-only and cannot be combined with `--apply`."@
        } else {
            "`preset intent --emit-shell` is plan-only and cannot be combined with `--apply`."@
        }),
{
    if json && apply {
        return Err(owned("`preset intent --json` is plan-only and cannot be combined with `--apply`."));
    }
    if emit_shell && apply {
        return Err(owned("`preset intent --emit-shell` is plan-only and cannot be combined with `--apply`."));
    }
    Ok(())
}

/// The commands that can print a machine-JSON report.
#[derive(Debug, Clone, Copy, PartialEq, Eq, Structural)]
pub enum CommandKind {
    Onboard,
    PresetApply,
    PresetExport,
    PresetIntent,
    PresetImport,
    PresetValidate,
    SecurityProfileSet,
    SecurityProfileRecommend,
    /// Every other command.
    Other,
}

/// Machine-JSON mode (reports only on stdout, logs suppressed) is on when a
/// command that has a JSON report is given `--json`.
pub fn command_requests_machine_json(kind: CommandKind, json: bool) -> (r: bool)
    ensures
        r == (json && kind != CommandKind::Other),
{
    match kind {
        CommandKind::Other => false,
        _ => json,
    }
}

} // verus!
