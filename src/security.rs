//! Security profiles: the autonomy policy of each profile, snapshots, and the
//! per-field change report between two policies.
use vstd::prelude::*;
use crate::consent::{
    security_code_key, SecurityRiskConsentReasonCode,
    security_risk_consent_reason_keys, SECURITY_PROFILE_CHANGE_REPORT_TYPE,
    SECURITY_PROFILE_CHANGE_SCHEMA_VERSION,
};
use crate::text::{
    bool_string, bool_text, decimal, decimal_string, join_strings, join_with, owned, str_eq, views,
};

verus! {

/// How much the agent may do without asking.
#[derive(Debug, Clone, Copy, PartialEq, Eq, Structural)]
pub enum AutonomyLevel {
    ReadOnly,
    Supervised,
    Full,
}

/// The enforceable autonomy policy.
#[derive(Debug, Clone)]
pub struct AutonomyConfig {
    pub level: AutonomyLevel,
    pub workspace_only: bool,
    pub allowed_roots: Vec<String>,
    pub allowed_commands: Vec<String>,
    pub require_approval_for_medium_risk: bool,
    pub block_high_risk_commands: bool,
    pub allow_non_cli_auto_approval: bool,
    pub max_actions_per_hour: u32,
    pub max_cost_per_day_cents: u32,
}

/// The profile named on the command line.
#[derive(Debug, Clone, Copy, PartialEq, Eq, Structural)]
pub enum SecurityProfileArg {
    Strict,
    Balanced,
    Flexible,
    Full,
}

/// The non-CLI approval mode named on the command line.
#[derive(Debug, Clone, Copy, PartialEq, Eq, Structural)]
pub enum NonCliApprovalArg {
    Manual,
    Auto,
}

pub open spec fn profile_arg_id(p: SecurityProfileArg) -> Seq<char> {
    match p {
        SecurityProfileArg::Strict => "strict"@,
        SecurityProfileArg::Balanced => "balanced"@,
        SecurityProfileArg::Flexible => "flexible"@,
        SecurityProfileArg::Full => "full"@,
    }
}

impl SecurityProfileArg {
    pub fn as_profile_id(self) -> (r: &'static str)
        ensures
            r@ == profile_arg_id(self),
    {
        match self {
            SecurityProfileArg::Strict => "strict",
            SecurityProfileArg::Balanced => "balanced",
            SecurityProfileArg::Flexible => "flexible",
            SecurityProfileArg::Full => "full",
        }
    }

    pub fn is_non_strict(self) -> (r: bool)
        ensures
            r == (self != SecurityProfileArg::Strict),
    {
        !matches!(self, SecurityProfileArg::Strict)
    }
}

impl NonCliApprovalArg {
    pub fn allows_auto_approval(self) -> (r: bool)
        ensures
            r == (self == NonCliApprovalArg::Auto),
    {
        matches!(self, NonCliApprovalArg::Auto)
    }
}

/// The guardrails of a profile, by its risk rank (strict 0 .. full 3):
/// level, workspace_only, medium approval, high-risk block, non-CLI
/// auto-approval, actions per hour, cost per day in cents.
pub open spec fn profile_guardrails(rank: nat) -> (AutonomyLevel, bool, bool, bool, bool, u32, u32) {
    if rank == 0 {
        (AutonomyLevel::Supervised, true, true, true, false, 20, 500)
    } else if rank == 1 {
        (AutonomyLevel::Supervised, true, true, true, false, 60, 1000)
    } else if rank == 2 {
        (AutonomyLevel::Supervised, false, false, true, false, 120, 2500)
    } else {
        (AutonomyLevel::Full, false, false, false, false, 300, 5000)
    }
}

pub open spec fn profile_rank(id: Seq<char>) -> Option<nat> {
    if id == "strict"@ { Some(0) } else if id == "balanced"@ { Some(1) }
    else if id == "flexible"@ { Some(2) } else if id == "full"@ { Some(3) } else { None }
}

impl AutonomyConfig {
    pub open spec fn guardrails(&self) -> (AutonomyLevel, bool, bool, bool, bool, u32, u32) {
        (self.level, self.workspace_only, self.require_approval_for_medium_risk,
            self.block_high_risk_commands, self.allow_non_cli_auto_approval,
            self.max_actions_per_hour, self.max_cost_per_day_cents)
    }
}

fn config_for_rank(rank: u8) -> (r: AutonomyConfig)
    requires
        rank < 4,
    ensures
        r.guardrails() == profile_guardrails(rank as nat),
        r.allowed_roots@.len() == 0,
        r.allowed_commands@.len() == 0,
{
    let (level, workspace_only, medium, high, auto, actions, cents) = if rank == 0 {
        (AutonomyLevel::Supervised, true, true, true, false, 20u32, 500u32)
    } else if rank == 1 {
        (AutonomyLevel::Supervised, true, true, true, false, 60u32, 1000u32)
    } else if rank == 2 {
        (AutonomyLevel::Supervised, false, false, true, false, 120u32, 2500u32)
    } else {
        (AutonomyLevel::Full, false, false, false, false, 300u32, 5000u32)
    };
    AutonomyConfig {
        level,
        workspace_only,
        allowed_roots: Vec::new(),
        allowed_commands: Vec::new(),
        require_approval_for_medium_risk: medium,
        block_high_risk_commands: high,
        allow_non_cli_auto_approval: auto,
        max_actions_per_hour: actions,
        max_cost_per_day_cents: cents,
    }
}

/// The policy of a named profile; `None` for an unknown name.
pub fn autonomy_config_for_security_profile_id(id: &str) -> (r: Option<AutonomyConfig>)
    ensures
        r is Some <==> profile_rank(id@) is Some,
        r matches Some(c) ==> c.guardrails() == profile_guardrails(profile_rank(id@)->0)
            && c.allowed_roots@.len() == 0 && c.allowed_commands@.len() == 0,
{
    if str_eq(id, "strict") {
        Some(config_for_rank(0))
    } else if str_eq(id, "balanced") {
        Some(config_for_rank(1))
    } else if str_eq(id, "flexible") {
        Some(config_for_rank(2))
    } else if str_eq(id, "full") {
        Some(config_for_rank(3))
    } else {
        None
    }
}

/// The profile whose guardrails a policy carries, or `custom`.
pub open spec fn profile_id_of(g: (AutonomyLevel, bool, bool, bool, bool, u32, u32)) -> Seq<char> {
    if g == profile_guardrails(0) { "strict"@ } else if g == profile_guardrails(1) { "balanced"@ }
    else if g == profile_guardrails(2) { "flexible"@ } else if g == profile_guardrails(3) { "full"@ }
    else { "custom"@ }
}

pub open spec fn profile_label_of(g: (AutonomyLevel, bool, bool, bool, bool, u32, u32)) -> Seq<char> {
    if g == profile_guardrails(0) { "Strict"@ } else if g == profile_guardrails(1) { "Balanced"@ }
    else if g == profile_guardrails(2) { "Flexible"@ } else if g == profile_guardrails(3) { "Full"@ }
    else { "Custom"@ }
}

fn same_guardrails(a: &AutonomyConfig, rank: u8) -> (r: bool)
    requires
        rank < 4,
    ensures
        r == (a.guardrails() == profile_guardrails(rank as nat)),
{
    let p = config_for_rank(rank);
    a.level == p.level && a.workspace_only == p.workspace_only
        && a.require_approval_for_medium_risk == p.require_approval_for_medium_risk
        && a.block_high_risk_commands == p.block_high_risk_commands
        && a.allow_non_cli_auto_approval == p.allow_non_cli_auto_approval
        && a.max_actions_per_hour == p.max_actions_per_hour
        && a.max_cost_per_day_cents == p.max_cost_per_day_cents
}

/// The id of the profile that `autonomy` matches.
pub fn security_profile_id_from_autonomy(autonomy: &AutonomyConfig) -> (r: &'static str)
    ensures
        r@ == profile_id_of(autonomy.guardrails()),
{
    if same_guardrails(autonomy, 0) { "strict" } else if same_guardrails(autonomy, 1) { "balanced" }
    else if same_guardrails(autonomy, 2) { "flexible" } else if same_guardrails(autonomy, 3) { "full" }
    else { "custom" }
}

/// The label of the profile that `autonomy` matches.
pub fn security_profile_label(autonomy: &AutonomyConfig) -> (r: &'static str)
    ensures
        r@ == profile_label_of(autonomy.guardrails()),
{
    if same_guardrails(autonomy, 0) { "Strict" } else if same_guardrails(autonomy, 1) { "Balanced" }
    else if same_guardrails(autonomy, 2) { "Flexible" } else if same_guardrails(autonomy, 3) { "Full" }
    else { "Custom" }
}

pub open spec fn level_text(level: AutonomyLevel) -> Seq<char> {
    match level {
        AutonomyLevel::ReadOnly => "read_only"@,
        AutonomyLevel::Supervised => "supervised"@,
        AutonomyLevel::Full => "full"@,
    }
}

pub fn autonomy_level_id(level: AutonomyLevel) -> (r: &'static str)
    ensures
        r@ == level_text(level),
{
    match level {
        AutonomyLevel::ReadOnly => "read_only",
        AutonomyLevel::Supervised => "supervised",
        AutonomyLevel::Full => "full",
    }
}

pub open spec fn approval_mode_text(auto_enabled: bool) -> Seq<char> {
    if auto_enabled { "auto"@ } else { "manual"@ }
}

pub fn non_cli_approval_mode(auto_enabled: bool) -> (r: &'static str)
    ensures
        r@ == approval_mode_text(auto_enabled),
{
    if auto_enabled { "auto" } else { "manual" }
}

/// Dollars with two decimals, as `{:.2}` writes `cents / 100`.
pub open spec fn usd_text(cents: nat) -> Seq<char> {
    decimal(cents / 100) + "."@ + decimal((cents % 100) / 10) + decimal(cents % 10)
}

pub fn cents_to_usd_string(cents: u32) -> (r: String)
    ensures
        r@ == usd_text(cents as nat),
{
    let mut s = decimal_string((cents / 100) as u64);
    s.append(".");
    let tens = decimal_string(((cents % 100) / 10) as u64);
    s.append(tens.as_str());
    let ones = decimal_string((cents % 10) as u64);
    s.append(ones.as_str());
    s
}

/// A policy as the reports show it.
#[derive(Debug, Clone)]
pub struct SecurityProfileSnapshot {
    pub profile_id: String,
    pub label: String,
    pub level: String,
    pub workspace_only: bool,
    pub require_approval_for_medium_risk: bool,
    pub block_high_risk_commands: bool,
    pub allow_non_cli_auto_approval: bool,
    pub non_cli_approval_mode: String,
    pub max_actions_per_hour: u32,
    pub max_cost_per_day_cents: u32,
    pub max_cost_per_day_usd: String,
}

/// Whether `s` shows `autonomy`, under the id `id`.
pub open spec fn snapshot_of(s: SecurityProfileSnapshot, autonomy: AutonomyConfig, id: Seq<char>) -> bool {
    &&& s.profile_id@ == id
    &&& s.label@ == profile_label_of(autonomy.guardrails())
    &&& s.level@ == level_text(autonomy.level)
    &&& s.workspace_only == autonomy.workspace_only
    &&& s.require_approval_for_medium_risk == autonomy.require_approval_for_medium_risk
    &&& s.block_high_risk_commands == autonomy.block_high_risk_commands
    &&& s.allow_non_cli_auto_approval == autonomy.allow_non_cli_auto_approval
    &&& s.non_cli_approval_mode@ == approval_mode_text(autonomy.allow_non_cli_auto_approval)
    &&& s.max_actions_per_hour == autonomy.max_actions_per_hour
    &&& s.max_cost_per_day_cents == autonomy.max_cost_per_day_cents
    &&& s.max_cost_per_day_usd@ == usd_text(autonomy.max_cost_per_day_cents as nat)
}

/// Snapshot of `autonomy`; its id is `profile_id_override` when given, else
/// the profile that the policy matches.
pub fn build_security_profile_snapshot(
    autonomy: &AutonomyConfig,
    profile_id_override: Option<&str>,
) -> (r: SecurityProfileSnapshot)
    ensures
        snapshot_of(r, *autonomy, match profile_id_override {
            Some(id) => id@,
            None => profile_id_of(autonomy.guardrails()),
        }),
{
    let profile_id = match profile_id_override {
        Some(id) => owned(id),
        None => owned(security_profile_id_from_autonomy(autonomy)),
    };
    SecurityProfileSnapshot {
        profile_id,
        label: owned(security_profile_label(autonomy)),
        level: owned(autonomy_level_id(autonomy.level)),
        workspace_only: autonomy.workspace_only,
        require_approval_for_medium_risk: autonomy.require_approval_for_medium_risk,
        block_high_risk_commands: autonomy.block_high_risk_commands,
        allow_non_cli_auto_approval: autonomy.allow_non_cli_auto_approval,
        non_cli_approval_mode: owned(non_cli_approval_mode(autonomy.allow_non_cli_auto_approval)),
        max_actions_per_hour: autonomy.max_actions_per_hour,
        max_cost_per_day_cents: autonomy.max_cost_per_day_cents,
        max_cost_per_day_usd: cents_to_usd_string(autonomy.max_cost_per_day_cents),
    }
}

/// One field that a profile change alters.
#[derive(Debug, Clone)]
pub struct SecurityFieldChange {
    pub field: String,
    pub from: String,
    pub to: String,
}

pub open spec fn change_view(c: SecurityFieldChange) -> (Seq<char>, Seq<char>, Seq<char>) {
    (c.field@, c.from@, c.to@)
}

pub open spec fn when(cond: bool, items: Seq<(Seq<char>, Seq<char>, Seq<char>)>) -> Seq<(Seq<char>, Seq<char>, Seq<char>)> {
    if cond { items } else { Seq::empty() }
}

/// The fields that differ between the two policies, in report order: the
/// approval mode rides with non-CLI auto-approval, dollars ride with cents.
pub open spec fn field_changes(
    cur_id: Seq<char>,
    tgt_id: Seq<char>,
    c: AutonomyConfig,
    t: AutonomyConfig,
) -> Seq<(Seq<char>, Seq<char>, Seq<char>)> {
    when(cur_id != tgt_id, seq![("profile_id"@, cur_id, tgt_id)])
    + when(level_text(c.level) != level_text(t.level), seq![("level"@, level_text(c.level), level_text(t.level))])
    + when(c.workspace_only != t.workspace_only,
        seq![("workspace_only"@, bool_text(c.workspace_only), bool_text(t.workspace_only))])
    + when(c.require_approval_for_medium_risk != t.require_approval_for_medium_risk,
        seq![("require_approval_for_medium_risk"@, bool_text(c.require_approval_for_medium_risk),
            bool_text(t.require_approval_for_medium_risk))])
    + when(c.block_high_risk_commands != t.block_high_risk_commands,
        seq![("block_high_risk_commands"@, bool_text(c.block_high_risk_commands),
            bool_text(t.block_high_risk_commands))])
    + when(c.allow_non_cli_auto_approval != t.allow_non_cli_auto_approval,
        seq![("allow_non_cli_auto_approval"@, bool_text(c.allow_non_cli_auto_approval),
            bool_text(t.allow_non_cli_auto_approval)),
            ("non_cli_approval_mode"@, approval_mode_text(c.allow_non_cli_auto_approval),
            approval_mode_text(t.allow_non_cli_auto_approval))])
    + when(c.max_actions_per_hour != t.max_actions_per_hour,
        seq![("max_actions_per_hour"@, decimal(c.max_actions_per_hour as nat), decimal(t.max_actions_per_hour as nat))])
    + when(c.max_cost_per_day_cents != t.max_cost_per_day_cents,
        seq![("max_cost_per_day_cents"@, decimal(c.max_cost_per_day_cents as nat),
            decimal(t.max_cost_per_day_cents as nat)),
            ("max_cost_per_day_usd"@, usd_text(c.max_cost_per_day_cents as nat),
            usd_text(t.max_cost_per_day_cents as nat))])
}

/// The machine report of a security profile change.
#[derive(Debug, Clone)]
pub struct SecurityProfileChangeReport {
    pub schema_version: u32,
    pub report_type: String,
    pub current: SecurityProfileSnapshot,
    pub target: SecurityProfileSnapshot,
    pub changes: Vec<SecurityFieldChange>,
    pub requires_explicit_risk_consent: bool,
    pub risk_consent_reasons: Vec<SecurityRiskConsentReasonCode>,
    pub risk_consent_reason_keys: Vec<String>,
    pub dry_run: bool,
    pub rollback_command: String,
}

fn push_change(changes: &mut Vec<SecurityFieldChange>, field: &str, from: String, to: String)
    ensures
        final(changes)@.map_values(|c: SecurityFieldChange| change_view(c))
            == old(changes)@.map_values(|c: SecurityFieldChange| change_view(c)).push((field@, from@, to@)),
{
    let ghost before = changes@;
    changes.push(SecurityFieldChange { field: owned(field), from, to });
    assert(changes@.map_values(|c: SecurityFieldChange| change_view(c))
        =~= before.map_values(|c: SecurityFieldChange| change_view(c)).push((field@, from@, to@)));
}

fn push_when(changes: &mut Vec<SecurityFieldChange>, cond: bool, field: &str, from: String, to: String)
    ensures
        final(changes)@.map_values(|c: SecurityFieldChange| change_view(c))
            == old(changes)@.map_values(|c: SecurityFieldChange| change_view(c)) + when(cond, seq![(field@, from@, to@)]),
{
    let ghost before = changes@.map_values(|c: SecurityFieldChange| change_view(c));
    if cond {
        push_change(changes, field, from, to);
    }
    assert(changes@.map_values(|c: SecurityFieldChange| change_view(c)) =~= before + when(cond, seq![(field@, from@, to@)]));
}

fn push_pair_when(
    changes: &mut Vec<SecurityFieldChange>,
    cond: bool,
    field1: &str, from1: String, to1: String,
    field2: &str, from2: String, to2: String,
)
    ensures
        final(changes)@.map_values(|c: SecurityFieldChange| change_view(c))
            == old(changes)@.map_values(|c: SecurityFieldChange| change_view(c))
                + when(cond, seq![(field1@, from1@, to1@), (field2@, from2@, to2@)]),
{
    let ghost before = changes@.map_values(|c: SecurityFieldChange| change_view(c));
    if cond {
        push_change(changes, field1, from1, to1);
        push_change(changes, field2, from2, to2);
    }
    assert(changes@.map_values(|c: SecurityFieldChange| change_view(c))
        =~= before + when(cond, seq![(field1@, from1@, to1@), (field2@, from2@, to2@)]));
}

/// The changed fields between two policies with the given profile ids.
fn changed_fields(current: &AutonomyConfig, target: &AutonomyConfig, cur_id: &str, tgt_id: &str) -> (r: Vec<SecurityFieldChange>)
    ensures
        r@.map_values(|c: SecurityFieldChange| change_view(c)) == field_changes(cur_id@, tgt_id@, *current, *target),
{
    let mut changes: Vec<SecurityFieldChange> = Vec::new();
    let same_id = str_eq(cur_id, tgt_id);
    push_when(&mut changes, !same_id, "profile_id", owned(cur_id), owned(tgt_id));
    assert(changes@.map_values(|c: SecurityFieldChange| change_view(c))
        =~= when(cur_id@ != tgt_id@, seq![("profile_id"@, cur_id@, tgt_id@)]));
    let same_level = str_eq(autonomy_level_id(current.level), autonomy_level_id(target.level));
    push_when(&mut changes, !same_level, "level",
        owned(autonomy_level_id(current.level)), owned(autonomy_level_id(target.level)));
    push_when(&mut changes, current.workspace_only != target.workspace_only, "workspace_only",
        bool_string(current.workspace_only), bool_string(target.workspace_only));
    push_when(&mut changes, current.require_approval_for_medium_risk != target.require_approval_for_medium_risk,
        "require_approval_for_medium_risk",
        bool_string(current.require_approval_for_medium_risk),
        bool_string(target.require_approval_for_medium_risk));
    push_when(&mut changes, current.block_high_risk_commands != target.block_high_risk_commands,
        "block_high_risk_commands",
        bool_string(current.block_high_risk_commands),
        bool_string(target.block_high_risk_commands));
    push_pair_when(&mut changes, current.allow_non_cli_auto_approval != target.allow_non_cli_auto_approval,
        "allow_non_cli_auto_approval",
        bool_string(current.allow_non_cli_auto_approval),
        bool_string(target.allow_non_cli_auto_approval),
        "non_cli_approval_mode",
        owned(non_cli_approval_mode(current.allow_non_cli_auto_approval)),
        owned(non_cli_approval_mode(target.allow_non_cli_auto_approval)));
    push_when(&mut changes, current.max_actions_per_hour != target.max_actions_per_hour,
        "max_actions_per_hour",
        decimal_string(current.max_actions_per_hour as u64),
        decimal_string(target.max_actions_per_hour as u64));
    push_pair_when(&mut changes, current.max_cost_per_day_cents != target.max_cost_per_day_cents,
        "max_cost_per_day_cents",
        decimal_string(current.max_cost_per_day_cents as u64),
        decimal_string(target.max_cost_per_day_cents as u64),
        "max_cost_per_day_usd",
        cents_to_usd_string(current.max_cost_per_day_cents),
        cents_to_usd_string(target.max_cost_per_day_cents));
    changes
}

/// Compares the current policy with the target one, field by field.
pub fn build_security_profile_change_report(
    current: &AutonomyConfig,
    target: &AutonomyConfig,
    target_profile_id: &str,
    risk_consent_reasons: &[SecurityRiskConsentReasonCode],
    dry_run: bool,
) -> (r: SecurityProfileChangeReport)
    ensures
        r.schema_version == 1,
        r.report_type@ == "security.profile_change"@,
        snapshot_of(r.current, *current, profile_id_of(current.guardrails())),
        snapshot_of(r.target, *target, target_profile_id@),
        r.changes@.map_values(|c: SecurityFieldChange| change_view(c))
            == field_changes(profile_id_of(current.guardrails()), target_profile_id@, *current, *target),
        r.requires_explicit_risk_consent == (risk_consent_reasons@.len() > 0),
        r.risk_consent_reasons@ == risk_consent_reasons@,
        r.risk_consent_reason_keys@.len() == risk_consent_reasons@.len(),
        forall|i: int| 0 <= i < risk_consent_reasons@.len()
            ==> #[trigger] r.risk_consent_reason_keys@[i]@ == security_code_key(risk_consent_reasons@[i]),
        r.dry_run == dry_run,
        r.rollback_command@ == "zeroclaw security profile set strict"@,
{
    let current_snapshot = build_security_profile_snapshot(current, None);
    let target_snapshot = build_security_profile_snapshot(target, Some(target_profile_id));
    let changes = changed_fields(current, target, current_snapshot.profile_id.as_str(), target_snapshot.profile_id.as_str());
    let keys = security_risk_consent_reason_keys(risk_consent_reasons);
    let mut reasons: Vec<SecurityRiskConsentReasonCode> = Vec::new();
    let mut i: usize = 0;
    while i < risk_consent_reasons.len()
        invariant
            i <= risk_consent_reasons@.len(),
            reasons@ == risk_consent_reasons@.subrange(0, i as int),
        decreases risk_consent_reasons@.len() - i,
    {
        reasons.push(risk_consent_reasons[i]);
        i = i + 1;
        assert(reasons@ =~= risk_consent_reasons@.subrange(0, i as int));
    }
    assert(risk_consent_reasons@.subrange(0, risk_consent_reasons@.len() as int) =~= risk_consent_reasons@);
    SecurityProfileChangeReport {
        schema_version: SECURITY_PROFILE_CHANGE_SCHEMA_VERSION,
        report_type: owned(SECURITY_PROFILE_CHANGE_REPORT_TYPE),
        current: current_snapshot,
        target: target_snapshot,
        changes,
        requires_explicit_risk_consent: risk_consent_reasons.len() > 0,
        risk_consent_reasons: reasons,
        risk_consent_reason_keys: keys,
        dry_run,
        rollback_command: owned("zeroclaw security profile set strict"),
    }
}

/// The human reason behind a security risk consent code.
pub open spec fn risk_reason_text(code: SecurityRiskConsentReasonCode, profile_id: Seq<char>) -> Seq<char> {
    match code {
        SecurityRiskConsentReasonCode::NonStrictProfile => "profile '"@ + profile_id + "' is non-strict"@,
        SecurityRiskConsentReasonCode::NonCliAutoApproval => "non-CLI auto approval removes per-call confirmation on non-CLI channels"@,
    }
}

/// Whether a profile change is committed: never in a dry run, and otherwise
/// only when it carries no risk reasons or `--yes-risk` was given; a change
/// that needs consent and lacks it is refused, naming its reasons.
pub fn security_commit_gate(report: &SecurityProfileChangeReport, yes_risk: bool) -> (r: Result<bool, String>)
    ensures
        r is Err <==> !report.dry_run && report.requires_explicit_risk_consent && !yes_risk,
        r matches Err(e) ==> e@ == "Refusing to apply risk-elevating security changes without explicit consent ("@
            + join_with(report.risk_consent_reasons@.map_values(|c: SecurityRiskConsentReasonCode|
                risk_reason_text(c, report.target.profile_id@)), "; "@)
            + "). Re-run with `--yes-risk`, or use `--dry-run`."@,
        r == Ok::<bool, String>(true) <==> !report.dry_run && (!report.requires_explicit_risk_consent || yes_risk),
{
    if report.dry_run {
        return Ok(false);
    }
    if report.requires_explicit_risk_consent && !yes_risk {
        let mut parts: Vec<String> = Vec::new();
        let mut i: usize = 0;
        while i < report.risk_consent_reasons.len()
            invariant
                i <= report.risk_consent_reasons@.len(),
                parts@.len() == i,
                forall|j: int| 0 <= j < i ==> #[trigger] parts@[j]@
                    == risk_reason_text(report.risk_consent_reasons@[j], report.target.profile_id@),
            decreases report.risk_consent_reasons@.len() - i,
        {
            let text = match report.risk_consent_reasons[i] {
                SecurityRiskConsentReasonCode::NonStrictProfile => {
                    let mut t = owned("profile '");
                    t.append(report.target.profile_id.as_str());
                    t.append("' is non-strict");
                    t
                },
                SecurityRiskConsentReasonCode::NonCliAutoApproval => owned(
                    "non-CLI auto approval removes per-call confirmation on non-CLI channels",
                ),
            };
            parts.push(text);
            i = i + 1;
        }
        assert(views(parts@) =~= report.risk_consent_reasons@.map_values(|c: SecurityRiskConsentReasonCode|
            risk_reason_text(c, report.target.profile_id@)));
        let joined = join_strings(parts.as_slice(), "; ");
        let mut e = owned("Refusing to apply risk-elevating security changes without explicit consent (");
        e.append(joined.as_str());
        e.append("). Re-run with `--yes-risk`, or use `--dry-run`.");
        return Err(e);
    }
    Ok(true)
}

/// The risk rank of a named profile (strict 0 .. full 3).
pub open spec fn arg_rank(level: SecurityProfileArg) -> nat {
    match level {
        SecurityProfileArg::Strict => 0,
        SecurityProfileArg::Balanced => 1,
        SecurityProfileArg::Flexible => 2,
        SecurityProfileArg::Full => 3,
    }
}

/// The target policy of `security profile set` and why it needs consent.
#[derive(Debug, Clone)]
pub struct SecurityChangePlan {
    pub target: AutonomyConfig,
    pub enabling_non_cli_auto_approval: bool,
    pub risk_consent_reasons: Vec<SecurityRiskConsentReasonCode>,
}

/// The policy of the named profile, with the non-CLI approval override
/// applied, and the risk reasons of moving to it from `current`.
pub fn plan_security_change(
    current: &AutonomyConfig,
    level: SecurityProfileArg,
    non_cli_approval: Option<NonCliApprovalArg>,
) -> (r: SecurityChangePlan)
    ensures
        ({
            let g = profile_guardrails(arg_rank(level));
            let auto = match non_cli_approval { Some(m) => m == NonCliApprovalArg::Auto, None => g.4 };
            &&& r.target.level == g.0
            &&& r.target.workspace_only == g.1
            &&& r.target.require_approval_for_medium_risk == g.2
            &&& r.target.block_high_risk_commands == g.3
            &&& r.target.allow_non_cli_auto_approval == auto
            &&& r.target.max_actions_per_hour == g.5
            &&& r.target.max_cost_per_day_cents == g.6
            &&& r.enabling_non_cli_auto_approval == (!current.allow_non_cli_auto_approval && auto)
            &&& r.risk_consent_reasons@ == crate::consent::security_risk_reasons(
                level != SecurityProfileArg::Strict, !current.allow_non_cli_auto_approval && auto)
        }),
{
    let rank: u8 = match level {
        SecurityProfileArg::Strict => 0,
        SecurityProfileArg::Balanced => 1,
        SecurityProfileArg::Flexible => 2,
        SecurityProfileArg::Full => 3,
    };
    let mut target = config_for_rank(rank);
    if let Some(mode) = non_cli_approval {
        target.allow_non_cli_auto_approval = mode.allows_auto_approval();
    }
    let enabling = !current.allow_non_cli_auto_approval && target.allow_non_cli_auto_approval;
    let reasons = crate::consent::build_security_risk_consent_reasons(level.is_non_strict(), enabling);
    SecurityChangePlan { target, enabling_non_cli_auto_approval: enabling, risk_consent_reasons: reasons }
}

/// The runtime policy that tools consult before acting.
#[derive(Debug, Clone)]
pub struct SecurityPolicy {
    pub autonomy: AutonomyLevel,
    pub max_actions_per_hour: u32,
}

impl Default for SecurityPolicy {
    /// Supervised autonomy with the strict profile's action ceiling.
    fn default() -> (r: Self)
        ensures
            r.autonomy == AutonomyLevel::Supervised,
            r.max_actions_per_hour == 20,
    {
        SecurityPolicy { autonomy: AutonomyLevel::Supervised, max_actions_per_hour: 20 }
    }
}

impl SecurityPolicy {
    /// Whether the policy lets tools act at all.
    pub fn can_act(&self) -> (r: bool)
        ensures
            r == (self.autonomy != AutonomyLevel::ReadOnly),
    {
        !matches!(self.autonomy, AutonomyLevel::ReadOnly)
    }

    /// Whether one more action fits in the hourly budget, given the actions
    /// already taken in the last hour.
    pub fn allows_another_action(&self, actions_in_last_hour: u32) -> (r: bool)
        ensures
            r == (actions_in_last_hour < self.max_actions_per_hour),
    {
        actions_in_last_hour < self.max_actions_per_hour
    }
}

} // verus!
