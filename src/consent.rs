//! Stable consent reason codes, warning codes and their i18n keys.
use vstd::prelude::*;
use crate::text::{join_strings, join_with, owned, views};

verus! {

/// Why a preset or onboarding plan needs explicit consent before it is applied.
#[derive(Debug, Clone, Copy, PartialEq, Eq, Structural)]
pub enum ConsentReasonCode {
    RiskyPack,
    Rebuild,
    SecurityNonStrict,
}

/// Why a security profile change needs explicit risk consent.
#[derive(Debug, Clone, Copy, PartialEq, Eq, Structural)]
pub enum SecurityRiskConsentReasonCode {
    NonStrictProfile,
    NonCliAutoApproval,
}

/// Warnings attached to an onboarding dry run.
#[derive(Debug, Clone, Copy, PartialEq, Eq, Structural)]
pub enum OnboardWarningCode {
    RiskyPackRequiresConsent,
    SecurityNonStrictRequiresConsent,
}

pub open spec fn consent_code_text(c: ConsentReasonCode) -> Seq<char> {
    match c {
        ConsentReasonCode::RiskyPack => "risky_pack"@,
        ConsentReasonCode::Rebuild => "rebuild"@,
        ConsentReasonCode::SecurityNonStrict => "security_non_strict"@,
    }
}

pub open spec fn consent_code_key(c: ConsentReasonCode) -> Seq<char> {
    match c {
        ConsentReasonCode::RiskyPack => "consent.reason.risky_pack"@,
        ConsentReasonCode::Rebuild => "consent.reason.rebuild"@,
        ConsentReasonCode::SecurityNonStrict => "consent.reason.security_non_strict"@,
    }
}

impl ConsentReasonCode {
    /// Stable snake_case form.
    pub fn as_str(self) -> (r: &'static str)
        ensures
            r@ == consent_code_text(self),
    {
        match self {
            ConsentReasonCode::RiskyPack => "risky_pack",
            ConsentReasonCode::Rebuild => "rebuild",
            ConsentReasonCode::SecurityNonStrict => "security_non_strict",
        }
    }

    /// Stable i18n key.
    pub fn i18n_key(self) -> (r: &'static str)
        ensures
            r@ == consent_code_key(self),
    {
        match self {
            ConsentReasonCode::RiskyPack => "consent.reason.risky_pack",
            ConsentReasonCode::Rebuild => "consent.reason.rebuild",
            ConsentReasonCode::SecurityNonStrict => "consent.reason.security_non_strict",
        }
    }
}

pub open spec fn security_code_text(c: SecurityRiskConsentReasonCode) -> Seq<char> {
    match c {
        SecurityRiskConsentReasonCode::NonStrictProfile => "non_strict_profile"@,
        SecurityRiskConsentReasonCode::NonCliAutoApproval => "non_cli_auto_approval"@,
    }
}

pub open spec fn security_code_key(c: SecurityRiskConsentReasonCode) -> Seq<char> {
    match c {
        SecurityRiskConsentReasonCode::NonStrictProfile => "security.risk_reason.non_strict_profile"@,
        SecurityRiskConsentReasonCode::NonCliAutoApproval => "security.risk_reason.non_cli_auto_approval"@,
    }
}

impl SecurityRiskConsentReasonCode {
    /// Stable snake_case form.
    pub fn as_str(self) -> (r: &'static str)
        ensures
            r@ == security_code_text(self),
    {
        match self {
            SecurityRiskConsentReasonCode::NonStrictProfile => "non_strict_profile",
            SecurityRiskConsentReasonCode::NonCliAutoApproval => "non_cli_auto_approval",
        }
    }

    /// Stable i18n key.
    pub fn i18n_key(self) -> (r: &'static str)
        ensures
            r@ == security_code_key(self),
    {
        match self {
            SecurityRiskConsentReasonCode::NonStrictProfile => "security.risk_reason.non_strict_profile",
            SecurityRiskConsentReasonCode::NonCliAutoApproval => "security.risk_reason.non_cli_auto_approval",
        }
    }
}

pub open spec fn warning_code_key(c: OnboardWarningCode) -> Seq<char> {
    match c {
        OnboardWarningCode::RiskyPackRequiresConsent => "onboard.warning.risky_pack_requires_consent"@,
        OnboardWarningCode::SecurityNonStrictRequiresConsent => "onboard.warning.security_non_strict_requires_consent"@,
    }
}

impl OnboardWarningCode {
    /// Stable i18n key.
    pub fn i18n_key(self) -> (r: &'static str)
        ensures
            r@ == warning_code_key(self),
    {
        match self {
            OnboardWarningCode::RiskyPackRequiresConsent => "onboard.warning.risky_pack_requires_consent",
            OnboardWarningCode::SecurityNonStrictRequiresConsent => "onboard.warning.security_non_strict_requires_consent",
        }
    }
}

/// The i18n key of each reason, in order.
pub fn consent_reason_keys(reasons: &[ConsentReasonCode]) -> (r: Vec<String>)
    ensures
        r@.len() == reasons@.len(),
        forall|i: int| 0 <= i < reasons@.len() ==> #[trigger] r@[i]@ == consent_code_key(reasons@[i]),
{
    let mut out: Vec<String> = Vec::new();
    let mut i: usize = 0;
    while i < reasons.len()
        invariant
            i <= reasons@.len(),
            out@.len() == i,
            forall|j: int| 0 <= j < i ==> #[trigger] out@[j]@ == consent_code_key(reasons@[j]),
        decreases reasons@.len() - i,
    {
        out.push(owned(reasons[i].i18n_key()));
        i = i + 1;
    }
    out
}

/// The i18n key of each warning code, in order.
pub fn onboard_warning_keys(codes: &[OnboardWarningCode]) -> (r: Vec<String>)
    ensures
        r@.len() == codes@.len(),
        forall|i: int| 0 <= i < codes@.len() ==> #[trigger] r@[i]@ == warning_code_key(codes@[i]),
{
    let mut out: Vec<String> = Vec::new();
    let mut i: usize = 0;
    while i < codes.len()
        invariant
            i <= codes@.len(),
            out@.len() == i,
            forall|j: int| 0 <= j < i ==> #[trigger] out@[j]@ == warning_code_key(codes@[j]),
        decreases codes@.len() - i,
    {
        out.push(owned(codes[i].i18n_key()));
        i = i + 1;
    }
    out
}

/// The i18n key of each security risk reason, in order.
pub fn security_risk_consent_reason_keys(reasons: &[SecurityRiskConsentReasonCode]) -> (r: Vec<String>)
    ensures
        r@.len() == reasons@.len(),
        forall|i: int| 0 <= i < reasons@.len() ==> #[trigger] r@[i]@ == security_code_key(reasons@[i]),
{
    let mut out: Vec<String> = Vec::new();
    let mut i: usize = 0;
    while i < reasons.len()
        invariant
            i <= reasons@.len(),
            out@.len() == i,
            forall|j: int| 0 <= j < i ==> #[trigger] out@[j]@ == security_code_key(reasons@[j]),
        decreases reasons@.len() - i,
    {
        out.push(owned(reasons[i].i18n_key()));
        i = i + 1;
    }
    out
}

/// The snake_case forms of the reasons, joined with ", ".
pub fn format_consent_reasons(reasons: &[ConsentReasonCode]) -> (r: String)
    ensures
        r@ == join_with(reasons@.map_values(|c: ConsentReasonCode| consent_code_text(c)), ", "@),
{
    let mut parts: Vec<String> = Vec::new();
    let mut i: usize = 0;
    while i < reasons.len()
        invariant
            i <= reasons@.len(),
            parts@.len() == i,
            forall|j: int| 0 <= j < i ==> #[trigger] parts@[j]@ == consent_code_text(reasons@[j]),
        decreases reasons@.len() - i,
    {
        parts.push(owned(reasons[i].as_str()));
        i = i + 1;
    }
    assert(views(parts@) =~= reasons@.map_values(|c: ConsentReasonCode| consent_code_text(c)));
    join_strings(parts.as_slice(), ", ")
}

/// The snake_case forms of the security risk reasons, joined with ", ".
pub fn format_security_risk_consent_reasons(reasons: &[SecurityRiskConsentReasonCode]) -> (r: String)
    ensures
        r@ == join_with(reasons@.map_values(|c: SecurityRiskConsentReasonCode| security_code_text(c)), ", "@),
{
    let mut parts: Vec<String> = Vec::new();
    let mut i: usize = 0;
    while i < reasons.len()
        invariant
            i <= reasons@.len(),
            parts@.len() == i,
            forall|j: int| 0 <= j < i ==> #[trigger] parts@[j]@ == security_code_text(reasons@[j]),
        decreases reasons@.len() - i,
    {
        parts.push(owned(reasons[i].as_str()));
        i = i + 1;
    }
    assert(views(parts@) =~= reasons@.map_values(|c: SecurityRiskConsentReasonCode| security_code_text(c)));
    join_strings(parts.as_slice(), ", ")
}

/// Security risk reasons: a non-strict target profile, then enabling non-CLI auto-approval.
pub fn build_security_risk_consent_reasons(
    non_strict_profile: bool,
    enabling_non_cli_auto_approval: bool,
) -> (r: Vec<SecurityRiskConsentReasonCode>)
    ensures
        r@ == security_risk_reasons(non_strict_profile, enabling_non_cli_auto_approval),
{
    let mut reasons: Vec<SecurityRiskConsentReasonCode> = Vec::new();
    if non_strict_profile {
        reasons.push(SecurityRiskConsentReasonCode::NonStrictProfile);
    }
    if enabling_non_cli_auto_approval {
        reasons.push(SecurityRiskConsentReasonCode::NonCliAutoApproval);
    }
    reasons
}

pub open spec fn security_risk_reasons(non_strict: bool, auto_approval: bool) -> Seq<SecurityRiskConsentReasonCode> {
    (if non_strict { seq![SecurityRiskConsentReasonCode::NonStrictProfile] } else { Seq::empty() })
        + (if auto_approval { seq![SecurityRiskConsentReasonCode::NonCliAutoApproval] } else { Seq::empty() })
}

/// Reasons a preset plan needs consent to execute: risky packs without
/// `--yes-risky`, then a rebuild without `--yes-rebuild`.
pub open spec fn execution_reasons(has_risky: bool, yes_risky: bool, rebuild: bool, yes_rebuild: bool) -> Seq<ConsentReasonCode> {
    (if has_risky && !yes_risky { seq![ConsentReasonCode::RiskyPack] } else { Seq::empty() })
        + (if rebuild && !yes_rebuild { seq![ConsentReasonCode::Rebuild] } else { Seq::empty() })
}

pub fn build_preset_execution_consent_reasons(
    risky_packs: &[String],
    yes_risky: bool,
    rebuild: bool,
    yes_rebuild: bool,
) -> (r: Vec<ConsentReasonCode>)
    ensures
        r@ == execution_reasons(risky_packs@.len() > 0, yes_risky, rebuild, yes_rebuild),
{
    let mut reasons: Vec<ConsentReasonCode> = Vec::new();
    if risky_packs.len() > 0 && !yes_risky {
        reasons.push(ConsentReasonCode::RiskyPack);
    }
    if rebuild && !yes_rebuild {
        reasons.push(ConsentReasonCode::Rebuild);
    }
    assert(reasons@ =~= execution_reasons(risky_packs@.len() > 0, yes_risky, rebuild, yes_rebuild));
    reasons
}

/// A dry run applies nothing, so it needs no consent.
pub fn build_preset_apply_consent_reasons(
    risky_packs: &[String],
    dry_run: bool,
    yes_risky: bool,
    rebuild: bool,
    yes_rebuild: bool,
) -> (r: Vec<ConsentReasonCode>)
    ensures
        dry_run ==> r@.len() == 0,
        !dry_run ==> r@ == execution_reasons(risky_packs@.len() > 0, yes_risky, rebuild, yes_rebuild),
{
    if dry_run {
        Vec::new()
    } else {
        build_preset_execution_consent_reasons(risky_packs, yes_risky, rebuild, yes_rebuild)
    }
}

pub const ONBOARD_QUICK_DRY_RUN_SCHEMA_VERSION: u32 = 1;
pub const ONBOARD_QUICK_DRY_RUN_REPORT_TYPE: &'static str = "onboard.quick_dry_run";
pub const PRESET_INTENT_ORCHESTRATION_SCHEMA_VERSION: u32 = 1;
pub const PRESET_INTENT_ORCHESTRATION_REPORT_TYPE: &'static str = "preset.intent_orchestration";
pub const PRESET_EXPORT_REPORT_SCHEMA_VERSION: u32 = 1;
pub const PRESET_EXPORT_REPORT_TYPE: &'static str = "preset.export";
pub const PRESET_APPLY_DRY_RUN_SCHEMA_VERSION: u32 = 1;
pub const PRESET_APPLY_DRY_RUN_REPORT_TYPE: &'static str = "preset.apply_dry_run";
pub const PRESET_IMPORT_DRY_RUN_SCHEMA_VERSION: u32 = 1;
pub const PRESET_IMPORT_DRY_RUN_REPORT_TYPE: &'static str = "preset.import_dry_run";
pub const PRESET_VALIDATION_SCHEMA_VERSION: u32 = 1;
pub const PRESET_VALIDATION_REPORT_TYPE: &'static str = "preset.validation";
pub const SECURITY_PROFILE_CHANGE_SCHEMA_VERSION: u32 = 1;
pub const SECURITY_PROFILE_CHANGE_REPORT_TYPE: &'static str = "security.profile_change";
pub const SECURITY_PROFILE_RECOMMEND_SCHEMA_VERSION: u32 = 1;
pub const SECURITY_PROFILE_RECOMMEND_REPORT_TYPE: &'static str = "security.profile_recommendation";

} // verus!
