//! Preset orchestration: shell-escaped follow-up commands, consent and
//! warnings for applying a plan, and the generated confirmation script.
use vstd::prelude::*;
use crate::consent::{
    consent_code_key, consent_code_text, consent_reason_keys, execution_reasons,
    format_consent_reasons, build_preset_apply_consent_reasons, ConsentReasonCode,
};
use crate::text::{
    contains_str_in, has_infix, join_strings, join_with, lower_of, lowercase, owned, push_char, str_eq,
    views,
};

verus! {

/// A character inside a single-quoted shell word.
pub open spec fn shell_char(c: char) -> Seq<char> {
    if c == '\'' { "'\"'\"'"@ } else { seq![c] }
}

pub open spec fn shell_escaped(s: Seq<char>) -> Seq<char>
    decreases s.len(),
{
    if s.len() == 0 { Seq::empty() } else { shell_escaped(s.drop_last()) + shell_char(s.last()) }
}

/// `raw` as one single-quoted shell word.
pub open spec fn shell_quoted(raw: Seq<char>) -> Seq<char> {
    "'"@ + shell_escaped(raw) + "'"@
}

/// Quotes `raw` for a POSIX shell; a `'` inside becomes `'"'"'`.
pub fn shell_quote(raw: &str) -> (r: String)
    ensures
        r@ == shell_quoted(raw@),
{
    let n = raw.unicode_len();
    let mut out = owned("'");
    let ghost head = out@;
    let mut i: usize = 0;
    assert(raw@.take(0) =~= Seq::<char>::empty());
    while i < n
        invariant
            n == raw@.len(),
            i <= n,
            out@ == head + shell_escaped(raw@.take(i as int)),
        decreases n - i,
    {
        let c = raw.get_char(i);
        if c == '\'' {
            out.append("'\"'\"'");
        } else {
            push_char(&mut out, c);
        }
        assert(raw@.take(i + 1).drop_last() =~= raw@.take(i as int));
        assert(raw@.take(i + 1).last() == c);
        assert(out@ =~= head + shell_escaped(raw@.take(i + 1)));
        i = i + 1;
    }
    assert(raw@.take(n as int) =~= raw@);
    out.append("'");
    out
}

/// The words of a `preset intent` invocation that repeats the given options.
pub open spec fn intent_command_words(
    text: Seq<char>,
    files: Seq<Seq<char>>,
    apply: bool,
    dry_run: bool,
    yes_risky: bool,
    rebuild: bool,
    yes_rebuild: bool,
) -> Seq<Seq<char>> {
    seq!["zeroclaw"@, "preset"@, "intent"@, shell_quoted(text)]
        + files_words(files)
        + (if apply { seq!["--apply"@] } else { Seq::empty() })
        + (if dry_run { seq!["--dry-run"@] } else { Seq::empty() })
        + (if yes_risky { seq!["--yes-risky"@] } else { Seq::empty() })
        + (if rebuild { seq!["--rebuild"@] } else { Seq::empty() })
        + (if yes_rebuild { seq!["--yes-rebuild"@] } else { Seq::empty() })
}

pub open spec fn files_words(files: Seq<Seq<char>>) -> Seq<Seq<char>>
    decreases files.len(),
{
    if files.len() == 0 {
        Seq::empty()
    } else {
        files_words(files.drop_last()) + seq!["--capabilities-file"@, shell_quoted(files.last())]
    }
}

fn push_word(v: &mut Vec<String>, s: String)
    ensures
        views(final(v)@) == views(old(v)@).push(s@),
{
    let ghost before = v@;
    v.push(s);
    assert(views(v@) =~= views(before).push(s@));
}

fn push_flag_word(v: &mut Vec<String>, on: bool, flag: &str)
    ensures
        views(final(v)@) == views(old(v)@) + (if on { seq![flag@] } else { Seq::empty() }),
{
    let ghost before = views(v@);
    if on {
        push_word(v, owned(flag));
    }
    assert(views(v@) =~= before + (if on { seq![flag@] } else { Seq::<Seq<char>>::empty() }));
}

/// The shell command that re-runs `preset intent` with these options.
pub fn build_preset_intent_command(
    text: &str,
    capabilities_file: &[String],
    apply: bool,
    dry_run: bool,
    yes_risky: bool,
    rebuild: bool,
    yes_rebuild: bool,
) -> (r: String)
    ensures
        r@ == join_with(intent_command_words(text@, views(capabilities_file@), apply, dry_run,
            yes_risky, rebuild, yes_rebuild), " "@),
{
    let mut parts: Vec<String> = Vec::new();
    push_word(&mut parts, owned("zeroclaw"));
    push_word(&mut parts, owned("preset"));
    push_word(&mut parts, owned("intent"));
    push_word(&mut parts, shell_quote(text));
    assert(views(parts@) =~= seq!["zeroclaw"@, "preset"@, "intent"@, shell_quoted(text@)]);
    let ghost head = views(parts@);
    let mut i: usize = 0;
    let ghost files = views(capabilities_file@);
    assert(files.take(0) =~= Seq::<Seq<char>>::empty());
    assert(head + files_words(files.take(0)) =~= head);
    while i < capabilities_file.len()
        invariant
            i <= capabilities_file@.len(),
            files == views(capabilities_file@),
            views(parts@) == head + files_words(files.take(i as int)),
        decreases capabilities_file@.len() - i,
    {
        push_word(&mut parts, owned("--capabilities-file"));
        push_word(&mut parts, shell_quote(capabilities_file[i].as_str()));
        assert(files.take(i + 1).drop_last() =~= files.take(i as int));
        assert(files.take(i + 1).last() == capabilities_file@[i as int]@);
        assert(views(parts@) =~= head + files_words(files.take(i + 1)));
        i = i + 1;
    }
    assert(files.take(capabilities_file@.len() as int) =~= files);
    push_flag_word(&mut parts, apply, "--apply");
    push_flag_word(&mut parts, dry_run, "--dry-run");
    push_flag_word(&mut parts, yes_risky, "--yes-risky");
    push_flag_word(&mut parts, rebuild, "--rebuild");
    push_flag_word(&mut parts, yes_rebuild, "--yes-rebuild");
    join_strings(parts.as_slice(), " ")
}

/// A recommended security profile.
#[derive(Debug, Clone)]
pub struct SecurityProfileRecommendation {
    pub profile_id: String,
    pub label: String,
    pub risk_tier: String,
    pub reasons: Vec<String>,
    pub requires_explicit_consent: bool,
}

/// Whether a pack id names a capability that raises the risk floor.
pub open spec fn lifting_pack(id: Seq<char>) -> bool {
    has_infix(id, "update"@) || has_infix(id, "network-egress"@) || has_infix(id, "workspace-exec"@)
}

/// The intent asks for read-only or dry-run work.
pub open spec fn asks_read_only(text: Seq<char>) -> bool {
    has_infix(text, "read only"@) || has_infix(text, "read-only"@) || has_infix(text, "dry run"@)
}

/// Some planned pack is lifting or marked risky.
pub open spec fn packs_lift(packs: Seq<Seq<char>>, risky: Seq<Seq<char>>) -> bool {
    exists|i: int| 0 <= i < packs.len() && (lifting_pack(#[trigger] packs[i]) || risky.contains(packs[i]))
}

/// The intent asks for unattended, autonomous or prompt-free work.
pub open spec fn intent_lifts(text: Seq<char>) -> bool {
    has_infix(text, "unattended"@) || has_infix(text, "autonomous"@) || has_infix(text, "no prompt"@)
}

/// The recommended profile's risk rank (strict 0, balanced 1, flexible 2):
/// an intent that asks for read-only or dry-run work stays strict;
/// otherwise a lifting or risky pack adds one, and an intent for
/// unattended, autonomous or prompt-free work adds one more.
pub open spec fn recommended_rank(intent: Seq<char>, packs: Seq<Seq<char>>, risky: Seq<Seq<char>>) -> nat {
    let text = lower_of(intent);
    if asks_read_only(text) {
        0
    } else {
        (if packs_lift(packs, risky) { 1nat } else { 0nat }) + (if intent_lifts(text) { 1nat } else { 0nat })
    }
}

/// The reasons given with a recommendation, one per rule that applied.
pub open spec fn recommended_reasons(intent: Seq<char>, packs: Seq<Seq<char>>, risky: Seq<Seq<char>>) -> Seq<Seq<char>> {
    let text = lower_of(intent);
    if asks_read_only(text) {
        seq!["intent asks for read-only or dry-run operation"@]
    } else {
        (if packs_lift(packs, risky) {
            seq!["selected packs include update, network, workspace-exec or risky capabilities"@]
        } else {
            Seq::empty()
        }) + (if intent_lifts(text) {
            seq!["intent asks for unattended or autonomous operation"@]
        } else {
            Seq::empty()
        })
    }
}

pub open spec fn rank_profile(rank: nat) -> (Seq<char>, Seq<char>, Seq<char>) {
    if rank == 0 {
        ("strict"@, "Strict"@, "low"@)
    } else if rank == 1 {
        ("balanced"@, "Balanced"@, "medium"@)
    } else {
        ("flexible"@, "Flexible"@, "high"@)
    }
}

/// Recommends a security profile for an intent and the planned packs;
/// `risky_registry` lists the packs that need confirmation.
pub fn recommend_security_profile(intent: &str, packs: &[String], risky_registry: &[String]) -> (r: SecurityProfileRecommendation)
    ensures
        ({
            let rank = recommended_rank(intent@, views(packs@), views(risky_registry@));
            &&& (r.profile_id@, r.label@, r.risk_tier@) == rank_profile(rank)
            &&& r.requires_explicit_consent == (rank > 0)
            &&& views(r.reasons@) == recommended_reasons(intent@, views(packs@), views(risky_registry@))
        }),
{
    let text = lowercase(intent);
    let t = text.as_str();
    let mut reasons: Vec<String> = Vec::new();
    let rank: u8 = if contains_str_in(t, "read only") || contains_str_in(t, "read-only") || contains_str_in(t, "dry run") {
        reasons.push(owned("intent asks for read-only or dry-run operation"));
        assert(views(reasons@) =~= seq!["intent asks for read-only or dry-run operation"@]);
        0
    } else {
        let mut pack_lift = false;
        let mut i: usize = 0;
        while i < packs.len()
            invariant
                i <= packs@.len(),
                pack_lift == exists|k: int| 0 <= k < i
                    && (lifting_pack(#[trigger] views(packs@)[k]) || views(risky_registry@).contains(views(packs@)[k])),
            decreases packs@.len() - i,
        {
            let p = packs[i].as_str();
            let lifts = contains_str_in(p, "update") || contains_str_in(p, "network-egress")
                || contains_str_in(p, "workspace-exec") || crate::text::contains_str(risky_registry, p);
            assert(views(packs@)[i as int] == packs@[i as int]@);
            if lifts {
                pack_lift = true;
            }
            i = i + 1;
        }
        let intent_lift = contains_str_in(t, "unattended") || contains_str_in(t, "autonomous")
            || contains_str_in(t, "no prompt");
        if pack_lift {
            reasons.push(owned("selected packs include update, network, workspace-exec or risky capabilities"));
        }
        let ghost mid = views(reasons@);
        if intent_lift {
            reasons.push(owned("intent asks for unattended or autonomous operation"));
        }
        assert(views(reasons@) =~= (if pack_lift {
            seq!["selected packs include update, network, workspace-exec or risky capabilities"@]
        } else {
            Seq::<Seq<char>>::empty()
        }) + (if intent_lift {
            seq!["intent asks for unattended or autonomous operation"@]
        } else {
            Seq::<Seq<char>>::empty()
        }));
        (if pack_lift { 1u8 } else { 0u8 }) + (if intent_lift { 1u8 } else { 0u8 })
    };
    let (id, label, tier) = if rank == 0 {
        ("strict", "Strict", "low")
    } else if rank == 1 {
        ("balanced", "Balanced", "medium")
    } else {
        ("flexible", "Flexible", "high")
    };
    SecurityProfileRecommendation {
        profile_id: owned(id),
        label: owned(label),
        risk_tier: owned(tier),
        reasons,
        requires_explicit_consent: rank > 0,
    }
}

/// The command that applies a recommendation, with `--yes-risk` when it needs consent.
pub fn build_security_apply_command(recommendation: &SecurityProfileRecommendation) -> (r: String)
    ensures
        r@ == "zeroclaw security profile set "@ + recommendation.profile_id@
            + (if recommendation.requires_explicit_consent { " --yes-risk"@ } else { ""@ }),
{
    let mut s = owned("zeroclaw security profile set ");
    s.append(recommendation.profile_id.as_str());
    if recommendation.requires_explicit_consent {
        s.append(" --yes-risk");
    } else {
        proof { reveal_strlit(""); }
        assert(s@ =~= s@ + ""@);
    }
    s
}

/// Applying a recommendation that needs consent needs a non-strict consent.
pub fn build_security_apply_consent_reasons(recommendation: &SecurityProfileRecommendation) -> (r: Vec<ConsentReasonCode>)
    ensures
        r@ == (if recommendation.requires_explicit_consent {
            seq![ConsentReasonCode::SecurityNonStrict]
        } else {
            Seq::empty()
        }),
{
    let mut v: Vec<ConsentReasonCode> = Vec::new();
    if recommendation.requires_explicit_consent {
        v.push(ConsentReasonCode::SecurityNonStrict);
    }
    assert(v@ =~= (if recommendation.requires_explicit_consent {
        seq![ConsentReasonCode::SecurityNonStrict]
    } else {
        Seq::<ConsentReasonCode>::empty()
    }));
    v
}

pub open spec fn risky_warning(risky_packs: Seq<Seq<char>>) -> Seq<char> {
    "Selection includes risky packs ["@ + join_with(risky_packs, ", "@)
        + "]. Applying this plan requires `--yes-risky`."@
}

/// Warnings for the consent reasons of executing a plan.
pub fn build_preset_execution_warnings(
    risky_packs: &[String],
    rebuild: bool,
    execution_consent_reasons: &[ConsentReasonCode],
) -> (r: Vec<String>)
    ensures
        views(r@) == (if execution_consent_reasons@.contains(ConsentReasonCode::RiskyPack) {
            seq![risky_warning(views(risky_packs@))]
        } else {
            Seq::empty()
        }) + (if execution_consent_reasons@.contains(ConsentReasonCode::Rebuild) && rebuild {
            seq!["Rebuild was requested. Executing this plan requires `--yes-rebuild`."@]
        } else {
            Seq::empty()
        }),
{
    let mut warnings: Vec<String> = Vec::new();
    let has_risky = contains_reason(execution_consent_reasons, ConsentReasonCode::RiskyPack);
    let has_rebuild = contains_reason(execution_consent_reasons, ConsentReasonCode::Rebuild);
    if has_risky {
        let mut w = owned("Selection includes risky packs [");
        let joined = join_strings(risky_packs, ", ");
        w.append(joined.as_str());
        w.append("]. Applying this plan requires `--yes-risky`.");
        push_word(&mut warnings, w);
    }
    let ghost mid = views(warnings@);
    if has_rebuild && rebuild {
        push_word(&mut warnings, owned("Rebuild was requested. Executing this plan requires `--yes-rebuild`."));
    }
    assert(views(warnings@) =~= (if has_risky { seq![risky_warning(views(risky_packs@))] } else {
        Seq::<Seq<char>>::empty() }) + (if has_rebuild && rebuild {
        seq!["Rebuild was requested. Executing this plan requires `--yes-rebuild`."@] } else {
        Seq::<Seq<char>>::empty() }));
    warnings
}

fn contains_reason(reasons: &[ConsentReasonCode], code: ConsentReasonCode) -> (r: bool)
    ensures
        r == reasons@.contains(code),
{
    let mut i: usize = 0;
    while i < reasons.len()
        invariant
            i <= reasons@.len(),
            forall|j: int| 0 <= j < i ==> reasons@[j] != code,
        decreases reasons@.len() - i,
    {
        if reasons[i] == code {
            return true;
        }
        i = i + 1;
    }
    false
}

/// A follow-up command suggested by `preset intent`.
#[derive(Debug, Clone)]
pub struct GeneratedNextCommand {
    pub id: String,
    pub description: String,
    pub command: String,
    pub requires_explicit_consent: bool,
    pub consent_reasons: Vec<ConsentReasonCode>,
    pub consent_reason_keys: Vec<String>,
}

impl GeneratedNextCommand {
    /// Consent is asked exactly when there are reasons, and each reason has its key.
    pub open spec fn consistent(&self) -> bool {
        &&& self.requires_explicit_consent == (self.consent_reasons@.len() > 0)
        &&& self.consent_reason_keys@.len() == self.consent_reasons@.len()
        &&& forall|i: int| 0 <= i < self.consent_reasons@.len()
            ==> #[trigger] self.consent_reason_keys@[i]@ == consent_code_key(self.consent_reasons@[i])
    }
}

fn next_command(id: &str, description: &str, command: String, reasons: Vec<ConsentReasonCode>) -> (r: GeneratedNextCommand)
    ensures
        r.id@ == id@,
        r.description@ == description@,
        r.command@ == command@,
        r.consent_reasons@ == reasons@,
        r.consistent(),
{
    let keys = consent_reason_keys(reasons.as_slice());
    GeneratedNextCommand {
        id: owned(id),
        description: owned(description),
        command,
        requires_explicit_consent: reasons.len() > 0,
        consent_reasons: reasons,
        consent_reason_keys: keys,
    }
}

/// The follow-up commands of an intent plan: a dry-run preview of applying
/// it (left out when it is the same command as the apply itself), applying
/// it, and setting the recommended security profile.
pub fn build_next_commands(
    text: &str,
    capabilities_file: &[String],
    dry_run: bool,
    yes_risky: bool,
    rebuild: bool,
    yes_rebuild: bool,
    risky_packs: &[String],
    recommendation: &SecurityProfileRecommendation,
) -> (r: Vec<GeneratedNextCommand>)
    ensures
        ({
            let files = views(capabilities_file@);
            let preview = join_with(intent_command_words(text@, files, true, true, false, rebuild, false), " "@);
            let apply = join_with(intent_command_words(text@, files, true, dry_run, yes_risky, rebuild, yes_rebuild), " "@);
            let k: int = if preview == apply { 0 } else { 1 };
            &&& r@.len() == 2 + k
            &&& k == 1 ==> r@[0].id@ == "preset.apply.preview"@ && r@[0].command@ == preview
                && r@[0].consent_reasons@.len() == 0
            &&& r@[k].id@ == "preset.apply"@
            &&& r@[k].command@ == apply
            &&& r@[k].consent_reasons@ == (if dry_run { Seq::empty() } else {
                execution_reasons(risky_packs@.len() > 0, yes_risky, rebuild, yes_rebuild) })
            &&& r@[k + 1].id@ == "security.profile.set"@
            &&& r@[k + 1].consent_reasons@ == (if recommendation.requires_explicit_consent {
                seq![ConsentReasonCode::SecurityNonStrict] } else { Seq::empty() })
            &&& forall|i: int| 0 <= i < r@.len() ==> (#[trigger] r@[i]).consistent()
        }),
{
    let preview = build_preset_intent_command(text, capabilities_file, true, true, false, rebuild, false);
    let apply = build_preset_intent_command(text, capabilities_file, true, dry_run, yes_risky, rebuild, yes_rebuild);
    let same = str_eq(preview.as_str(), apply.as_str());
    let apply_reasons = build_preset_apply_consent_reasons(risky_packs, dry_run, yes_risky, rebuild, yes_rebuild);
    let security_reasons = build_security_apply_consent_reasons(recommendation);
    let security_command = build_security_apply_command(recommendation);
    let mut out: Vec<GeneratedNextCommand> = Vec::new();
    if !same {
        out.push(next_command(
            "preset.apply.preview",
            "Preview applying this intent plan without mutating workspace state",
            preview,
            Vec::new(),
        ));
    }
    out.push(next_command(
        "preset.apply",
        "Apply this preset composition plan to workspace selection",
        apply,
        apply_reasons,
    ));
    out.push(next_command(
        "security.profile.set",
        "Align security profile with the recommended guardrails (manual step)",
        security_command,
        security_reasons,
    ));
    out
}

/// The lines that run one follow-up command; consent-gated ones ask first.
pub open spec fn command_lines(c: GeneratedNextCommand) -> Seq<Seq<char>> {
    let reasons = if c.consent_reasons@.len() == 0 {
        "manual_confirmation"@
    } else {
        join_with(c.consent_reasons@.map_values(|r: ConsentReasonCode| consent_code_text(r)), ", "@)
    };
    seq!["# "@ + c.id@ + ": "@ + c.description@]
        + (if c.requires_explicit_consent {
            seq![
                "if confirm \"Run "@ + c.id@ + " (reasons: "@ + reasons + ")?\"; then"@,
                "  "@ + c.command@,
                "else"@,
                "  echo \"Skipped "@ + c.id@ + "\""@,
                "fi"@,
            ]
        } else {
            seq![c.command@]
        })
        + seq![Seq::empty()]
}

pub open spec fn all_command_lines(cs: Seq<GeneratedNextCommand>) -> Seq<Seq<char>>
    decreases cs.len(),
{
    if cs.len() == 0 { Seq::empty() } else { all_command_lines(cs.drop_last()) + command_lines(cs.last()) }
}

pub open spec fn script_header(intent: Seq<char>) -> Seq<Seq<char>> {
    seq![
        "#!/usr/bin/env bash"@,
        "set -euo pipefail"@,
        Seq::empty(),
        "# Generated by: zeroclaw preset intent "@ + shell_quoted(intent) + " --json"@,
        "# This script is generated only. It is not executed automatically."@,
        Seq::empty(),
        "confirm() {"@,
        "  local prompt=\"$1\""@,
        "  local reply"@,
        "  read -r -p \"$prompt [y/N]: \" reply"@,
        "  case \"$reply\" in"@,
        "    [yY]|[yY][eE][sS]) return 0 ;;"@,
        "    *) return 1 ;;"@,
        "  esac"@,
        "}"@,
        Seq::empty(),
    ]
}

fn concat3(a: &str, b: &str, c: &str) -> (r: String)
    ensures
        r@ == a@ + b@ + c@,
{
    let mut s = owned(a);
    s.append(b);
    s.append(c);
    s
}

fn push_command_lines(lines: &mut Vec<String>, c: &GeneratedNextCommand)
    ensures
        views(final(lines)@) == views(old(lines)@) + command_lines(*c),
{
    let ghost before = views(lines@);
    let mut head = concat3("# ", c.id.as_str(), ": ");
    head.append(c.description.as_str());
    push_word(lines, head);
    if c.requires_explicit_consent {
        let label = if c.consent_reasons.len() == 0 {
            owned("manual_confirmation")
        } else {
            format_consent_reasons(c.consent_reasons.as_slice())
        };
        let mut ask = concat3("if confirm \"Run ", c.id.as_str(), " (reasons: ");
        ask.append(label.as_str());
        ask.append(")?\"; then");
        push_word(lines, ask);
        push_word(lines, concat3("  ", c.command.as_str(), ""));
        push_word(lines, owned("else"));
        push_word(lines, concat3("  echo \"Skipped ", c.id.as_str(), "\""));
        push_word(lines, owned("fi"));
    } else {
        push_word(lines, c.command.clone());
    }
    push_word(lines, String::new());
    proof { reveal_strlit(""); }
    assert(views(lines@) =~= before + command_lines(*c));
}

/// A Bash script that runs each follow-up command, asking before each one
/// that needs consent.
pub fn build_orchestration_shell_script(intent: &str, next_commands: &[GeneratedNextCommand]) -> (r: String)
    ensures
        r@ == join_with(script_header(intent@) + all_command_lines(next_commands@), "\n"@),
{
    let mut lines: Vec<String> = Vec::new();
    push_word(&mut lines, owned("#!/usr/bin/env bash"));
    push_word(&mut lines, owned("set -euo pipefail"));
    push_word(&mut lines, String::new());
    let q = shell_quote(intent);
    push_word(&mut lines, concat3("# Generated by: zeroclaw preset intent ", q.as_str(), " --json"));
    push_word(&mut lines, owned("# This script is generated only. It is not executed automatically."));
    push_word(&mut lines, String::new());
    push_word(&mut lines, owned("confirm() {"));
    push_word(&mut lines, owned("  local prompt=\"$1\""));
    push_word(&mut lines, owned("  local reply"));
    push_word(&mut lines, owned("  read -r -p \"$prompt [y/N]: \" reply"));
    push_word(&mut lines, owned("  case \"$reply\" in"));
    push_word(&mut lines, owned("    [yY]|[yY][eE][sS]) return 0 ;;"));
    push_word(&mut lines, owned("    *) return 1 ;;"));
    push_word(&mut lines, owned("  esac"));
    push_word(&mut lines, owned("}"));
    push_word(&mut lines, String::new());
    assert(views(lines@) =~= script_header(intent@));
    let ghost head = views(lines@);
    let mut i: usize = 0;
    assert(next_commands@.take(0) =~= Seq::<GeneratedNextCommand>::empty());
    assert(head + all_command_lines(next_commands@.take(0)) =~= head);
    while i < next_commands.len()
        invariant
            i <= next_commands@.len(),
            views(lines@) == head + all_command_lines(next_commands@.take(i as int)),
        decreases next_commands@.len() - i,
    {
        push_command_lines(&mut lines, &next_commands[i]);
        assert(next_commands@.take(i + 1).drop_last() =~= next_commands@.take(i as int));
        assert(next_commands@.take(i + 1).last() == next_commands@[i as int]);
        assert(views(lines@) =~= head + all_command_lines(next_commands@.take(i + 1)));
        i = i + 1;
    }
    assert(next_commands@.take(next_commands@.len() as int) =~= next_commands@);
    join_strings(lines.as_slice(), "\n")
}

/// A mutating command may print its JSON report only as a dry run.
pub fn require_dry_run_for_json(command: &str, json: bool, dry_run: bool) -> (r: Result<(), String>)
    ensures
        r is Err <==> json && !dry_run,
        r matches Err(e) ==> e@ == "`"@ + command@ + " --json` requires `--dry-run`."@,
{
    if json && !dry_run {
        return Err(concat3("`", command, " --json` requires `--dry-run`."));
    }
    Ok(())
}

/// What applying a preset plan may do.
#[derive(Debug, Clone, Copy, PartialEq, Eq, Structural)]
pub struct ExecutionPermit {
    /// Write the planned selection to the workspace.
    pub write_selection: bool,
    /// Run the rebuild (otherwise, when one was asked for, only preview it).
    pub run_rebuild: bool,
}

/// Decides, before anything is written, what `preset apply` or `preset
/// import` may do. A dry run writes nothing and runs nothing. Otherwise
/// risky packs need `--yes-risky` and a rebuild needs `--yes-rebuild`;
/// without them the command is refused as a whole.
pub fn preset_execution_gate(
    risky_packs: &[String],
    dry_run: bool,
    yes_risky: bool,
    rebuild: bool,
    yes_rebuild: bool,
) -> (r: Result<ExecutionPermit, String>)
    ensures
        r is Err <==> !dry_run && ((risky_packs@.len() > 0 && !yes_risky) || (rebuild && !yes_rebuild)),
        r matches Err(e) ==> e@ == (if risky_packs@.len() > 0 && !yes_risky {
            "Selection includes risky packs ["@ + join_with(views(risky_packs@), ", "@)
                + "]. Re-run with `--yes-risky`, or use `--dry-run`."@
        } else {
            "Refusing to run rebuild without confirmation. Re-run with `--yes-rebuild`, or use `--dry-run`."@
        }),
        r matches Ok(p) ==> p.write_selection == !dry_run && p.run_rebuild == (!dry_run && rebuild),
{
    if dry_run {
        return Ok(ExecutionPermit { write_selection: false, run_rebuild: false });
    }
    if risky_packs.len() > 0 && !yes_risky {
        let mut e = owned("Selection includes risky packs [");
        let joined = join_strings(risky_packs, ", ");
        e.append(joined.as_str());
        e.append("]. Re-run with `--yes-risky`, or use `--dry-run`.");
        return Err(e);
    }
    if rebuild && !yes_rebuild {
        return Err(owned("Refusing to run rebuild without confirmation. Re-run with `--yes-rebuild`, or use `--dry-run`."));
    }
    Ok(ExecutionPermit { write_selection: true, run_rebuild: rebuild })
}

} // verus!
