//! Emergency stop: engage and resume kill, network, domain and tool freezes.
use vstd::prelude::*;
use crate::text::{
    add_unique, contains_str, ends_with, has_suffix, no_duplicates, owned, remove_all, set_of, str_eq,
    views,
};

verus! {

/// The level that `estop` engages.
#[derive(Debug, Clone, Copy, PartialEq, Eq, Structural)]
pub enum EstopLevelArg {
    KillAll,
    NetworkKill,
    DomainBlock,
    ToolFreeze,
}

/// What to engage.
#[derive(Debug, Clone)]
pub enum EstopLevel {
    KillAll,
    NetworkKill,
    DomainBlock(Vec<String>),
    ToolFreeze(Vec<String>),
}

/// What to resume.
#[derive(Debug, Clone)]
pub enum ResumeSelector {
    KillAll,
    Network,
    Domains(Vec<String>),
    Tools(Vec<String>),
}

/// Why a resume was refused; the state is left as it was.
#[derive(Debug, Clone, Copy, PartialEq, Eq, Structural)]
pub enum EstopError {
    /// An OTP code is required and none could be checked.
    OtpRequired,
    /// The OTP code given was rejected.
    OtpInvalid,
}

/// The persistent emergency stop state.
#[derive(Debug, Clone)]
pub struct EstopState {
    pub kill_all: bool,
    pub network_kill: bool,
    pub blocked_domains: Vec<String>,
    pub frozen_tools: Vec<String>,
    pub updated_at: Option<String>,
}

/// The state as sets, leaving out when it last changed.
pub struct EstopModel {
    pub kill_all: bool,
    pub network_kill: bool,
    pub blocked_domains: Set<Seq<char>>,
    pub frozen_tools: Set<Seq<char>>,
}

pub open spec fn empty_model() -> EstopModel {
    EstopModel {
        kill_all: false,
        network_kill: false,
        blocked_domains: Set::empty(),
        frozen_tools: Set::empty(),
    }
}

pub open spec fn model_engaged(m: EstopModel) -> bool {
    m.kill_all || m.network_kill || !m.blocked_domains.is_empty() || !m.frozen_tools.is_empty()
}

/// The state after engaging `level`.
pub open spec fn engaged_model(m: EstopModel, level: EstopLevel) -> EstopModel {
    match level {
        EstopLevel::KillAll => EstopModel { kill_all: true, ..m },
        EstopLevel::NetworkKill => EstopModel { network_kill: true, ..m },
        EstopLevel::DomainBlock(p) => EstopModel { blocked_domains: m.blocked_domains.union(set_of(p@)), ..m },
        EstopLevel::ToolFreeze(t) => EstopModel { frozen_tools: m.frozen_tools.union(set_of(t@)), ..m },
    }
}

/// The state after resuming `selector`.
pub open spec fn resumed_model(m: EstopModel, selector: ResumeSelector) -> EstopModel {
    match selector {
        ResumeSelector::KillAll => empty_model(),
        ResumeSelector::Network => EstopModel { network_kill: false, ..m },
        ResumeSelector::Domains(d) => EstopModel { blocked_domains: m.blocked_domains.difference(set_of(d@)), ..m },
        ResumeSelector::Tools(t) => EstopModel { frozen_tools: m.frozen_tools.difference(set_of(t@)), ..m },
    }
}

/// Whether a blocked-domain pattern covers `domain`: `*` covers every domain,
/// `*.example.com` covers `example.com` and its subdomains, any other pattern
/// covers itself only.
pub open spec fn domain_pattern_covers(pattern: Seq<char>, domain: Seq<char>) -> bool {
    if pattern == "*"@ {
        true
    } else if pattern.len() >= 2 && pattern.subrange(0, 2) == "*."@ {
        domain == pattern.subrange(2, pattern.len() as int) || has_suffix(domain, pattern.subrange(1, pattern.len() as int))
    } else {
        domain == pattern
    }
}

impl EstopState {
    pub open spec fn model(&self) -> EstopModel {
        EstopModel {
            kill_all: self.kill_all,
            network_kill: self.network_kill,
            blocked_domains: set_of(self.blocked_domains@),
            frozen_tools: set_of(self.frozen_tools@),
        }
    }

    /// Each domain and each tool is listed once.
    pub open spec fn wf(&self) -> bool {
        no_duplicates(self.blocked_domains@) && no_duplicates(self.frozen_tools@)
    }

    /// The empty, disengaged state.
    pub fn new() -> (r: Self)
        ensures
            r.wf(),
            r.model() == empty_model(),
            r.updated_at is None,
    {
        let r = EstopState {
            kill_all: false,
            network_kill: false,
            blocked_domains: Vec::new(),
            frozen_tools: Vec::new(),
            updated_at: None,
        };
        assert(set_of(r.blocked_domains@) =~= Set::empty());
        assert(set_of(r.frozen_tools@) =~= Set::empty());
        r
    }

    /// Engaged iff any field differs from the empty state.
    pub fn is_engaged(&self) -> (r: bool)
        ensures
            r == model_engaged(self.model()),
    {
        proof {
            if self.blocked_domains@.len() > 0 {
                assert(views(self.blocked_domains@)[0] == self.blocked_domains@[0]@);
                assert(set_of(self.blocked_domains@).contains(self.blocked_domains@[0]@));
            } else {
                assert(set_of(self.blocked_domains@) =~= Set::empty());
            }
            if self.frozen_tools@.len() > 0 {
                assert(views(self.frozen_tools@)[0] == self.frozen_tools@[0]@);
                assert(set_of(self.frozen_tools@).contains(self.frozen_tools@[0]@));
            } else {
                assert(set_of(self.frozen_tools@) =~= Set::empty());
            }
        }
        self.kill_all || self.network_kill || self.blocked_domains.len() > 0 || self.frozen_tools.len() > 0
    }

    /// Engages `level` and stamps the change with `now`.
    pub fn engage(&mut self, level: &EstopLevel, now: String)
        requires
            old(self).wf(),
        ensures
            final(self).wf(),
            final(self).model() == engaged_model(old(self).model(), *level),
            final(self).updated_at == Some(now),
    {
        match level {
            EstopLevel::KillAll => {
                self.kill_all = true;
            },
            EstopLevel::NetworkKill => {
                self.network_kill = true;
            },
            EstopLevel::DomainBlock(patterns) => {
                add_unique(&mut self.blocked_domains, patterns.as_slice());
                assert(set_of(self.blocked_domains@) =~= engaged_model(old(self).model(), *level).blocked_domains);
            },
            EstopLevel::ToolFreeze(tools) => {
                add_unique(&mut self.frozen_tools, tools.as_slice());
                assert(set_of(self.frozen_tools@) =~= engaged_model(old(self).model(), *level).frozen_tools);
            },
        }
        self.updated_at = Some(now);
    }

    /// Resumes `selector`, clearing only that category (or everything for
    /// `KillAll`), and stamps the change with `now`.
    pub fn resume(&mut self, selector: &ResumeSelector, now: String)
        requires
            old(self).wf(),
        ensures
            final(self).wf(),
            final(self).model() == resumed_model(old(self).model(), *selector),
            final(self).updated_at == Some(now),
    {
        match selector {
            ResumeSelector::KillAll => {
                self.kill_all = false;
                self.network_kill = false;
                self.blocked_domains = Vec::new();
                self.frozen_tools = Vec::new();
                assert(set_of(self.blocked_domains@) =~= Set::empty());
                assert(set_of(self.frozen_tools@) =~= Set::empty());
            },
            ResumeSelector::Network => {
                self.network_kill = false;
            },
            ResumeSelector::Domains(d) => {
                remove_all(&mut self.blocked_domains, d.as_slice());
                assert(set_of(self.blocked_domains@) =~= resumed_model(old(self).model(), *selector).blocked_domains);
            },
            ResumeSelector::Tools(t) => {
                remove_all(&mut self.frozen_tools, t.as_slice());
                assert(set_of(self.frozen_tools@) =~= resumed_model(old(self).model(), *selector).frozen_tools);
            },
        }
        self.updated_at = Some(now);
    }

    /// Resumes behind the OTP gate. `otp_verdict` is the outcome of checking
    /// the code that was given: `None` when no code or no validator was at
    /// hand. Engaging never needs a code.
    pub fn resume_with_otp(
        &mut self,
        selector: &ResumeSelector,
        otp_required: bool,
        otp_verdict: Option<bool>,
        now: String,
    ) -> (r: Result<(), EstopError>)
        requires
            old(self).wf(),
        ensures
            final(self).wf(),
            otp_required && otp_verdict is None ==> r == Err::<(), EstopError>(EstopError::OtpRequired),
            otp_required && otp_verdict == Some(false) ==> r == Err::<(), EstopError>(EstopError::OtpInvalid),
            r is Err ==> *final(self) == *old(self),
            r is Ok <==> (!otp_required || otp_verdict == Some(true)),
            r is Ok ==> final(self).model() == resumed_model(old(self).model(), *selector)
                && final(self).updated_at == Some(now),
    {
        if otp_required {
            match otp_verdict {
                None => return Err(EstopError::OtpRequired),
                Some(false) => return Err(EstopError::OtpInvalid),
                Some(true) => {},
            }
        }
        self.resume(selector, now);
        Ok(())
    }

    /// Whether an action against `domain` is denied: a global or network
    /// kill is engaged, or a blocked pattern covers the domain.
    pub fn denies_domain(&self, domain: &str) -> (r: bool)
        ensures
            r == (self.kill_all || self.network_kill
                || exists|i: int| 0 <= i < self.blocked_domains@.len()
                    && #[trigger] domain_pattern_covers(self.blocked_domains@[i]@, domain@)),
    {
        if self.kill_all || self.network_kill {
            return true;
        }
        let mut i: usize = 0;
        while i < self.blocked_domains.len()
            invariant
                i <= self.blocked_domains@.len(),
                forall|j: int| 0 <= j < i ==> !#[trigger] domain_pattern_covers(self.blocked_domains@[j]@, domain@),
            decreases self.blocked_domains@.len() - i,
        {
            if pattern_covers(self.blocked_domains[i].as_str(), domain) {
                return true;
            }
            i = i + 1;
        }
        false
    }

    /// Whether using `tool` is denied: a global kill is engaged, or the tool is frozen.
    pub fn denies_tool(&self, tool: &str) -> (r: bool)
        ensures
            r == (self.kill_all || self.model().frozen_tools.contains(tool@)),
    {
        self.kill_all || contains_str(self.frozen_tools.as_slice(), tool)
    }
}

/// Whether `selector` resumes exactly what `level` engages.
pub open spec fn resumes_level(level: EstopLevel, selector: ResumeSelector) -> bool {
    match (level, selector) {
        (EstopLevel::KillAll, ResumeSelector::KillAll) => true,
        (EstopLevel::NetworkKill, ResumeSelector::Network) => true,
        (EstopLevel::DomainBlock(p), ResumeSelector::Domains(d)) => set_of(p@) == set_of(d@),
        (EstopLevel::ToolFreeze(t), ResumeSelector::Tools(u)) => set_of(t@) == set_of(u@),
        _ => false,
    }
}

/// Whether the category that `level` engages is clear in `m`. Resuming a
/// global kill clears every category, so for it the whole state is clear.
pub open spec fn category_clear(m: EstopModel, level: EstopLevel) -> bool {
    match level {
        EstopLevel::KillAll => m == empty_model(),
        EstopLevel::NetworkKill => !m.network_kill,
        EstopLevel::DomainBlock(p) => m.blocked_domains.disjoint(set_of(p@)),
        EstopLevel::ToolFreeze(t) => m.frozen_tools.disjoint(set_of(t@)),
    }
}

/// Engaging a level and then resuming the same category gives back the state
/// from before the engagement, wherever that category was clear before.
pub proof fn lemma_engage_then_resume_restores(m: EstopModel, level: EstopLevel, selector: ResumeSelector)
    requires
        resumes_level(level, selector),
        category_clear(m, level),
    ensures
        resumed_model(engaged_model(m, level), selector) == m,
{
    match (level, selector) {
        (EstopLevel::DomainBlock(p), ResumeSelector::Domains(d)) => {
            assert(m.blocked_domains.union(set_of(p@)).difference(set_of(d@)) =~= m.blocked_domains);
        },
        (EstopLevel::ToolFreeze(t), ResumeSelector::Tools(u)) => {
            assert(m.frozen_tools.union(set_of(t@)).difference(set_of(u@)) =~= m.frozen_tools);
        },
        _ => {},
    }
}

/// The level that `estop` engages when no level is named.
pub open spec fn requested_level(level: Option<EstopLevelArg>) -> EstopLevelArg {
    match level {
        Some(l) => l,
        None => EstopLevelArg::KillAll,
    }
}

/// The refusal, if any, for engaging `level` with these domains and tools.
pub open spec fn engage_level_error(level: EstopLevelArg, has_domains: bool, has_tools: bool) -> Option<Seq<char>> {
    match level {
        EstopLevelArg::KillAll => if has_domains || has_tools {
            Some("--domain/--tool are only valid with --level domain-block/tool-freeze"@)
        } else {
            None
        },
        EstopLevelArg::NetworkKill => if has_domains || has_tools {
            Some("--domain/--tool are not valid with --level network-kill"@)
        } else {
            None
        },
        EstopLevelArg::DomainBlock => if !has_domains {
            Some("--level domain-block requires at least one --domain"@)
        } else if has_tools {
            Some("--tool is not valid with --level domain-block"@)
        } else {
            None
        },
        EstopLevelArg::ToolFreeze => if !has_tools {
            Some("--level tool-freeze requires at least one --tool"@)
        } else if has_domains {
            Some("--domain is not valid with --level tool-freeze"@)
        } else {
            None
        },
    }
}

/// Turns the `estop` flags into the level to engage; `None` means a global kill.
pub fn build_engage_level(
    level: Option<EstopLevelArg>,
    domains: Vec<String>,
    tools: Vec<String>,
) -> (r: Result<EstopLevel, String>)
    ensures
        ({
            let req = requested_level(level);
            let err = engage_level_error(req, domains@.len() > 0, tools@.len() > 0);
            &&& r is Err <==> err is Some
            &&& r matches Err(e) ==> err == Some(e@)
            &&& r matches Ok(l) ==> match req {
                EstopLevelArg::KillAll => l is KillAll,
                EstopLevelArg::NetworkKill => l is NetworkKill,
                EstopLevelArg::DomainBlock => l matches EstopLevel::DomainBlock(d) && d@ == domains@,
                EstopLevelArg::ToolFreeze => l matches EstopLevel::ToolFreeze(t) && t@ == tools@,
            }
        }),
{
    let requested = match level {
        Some(l) => l,
        None => EstopLevelArg::KillAll,
    };
    match requested {
        EstopLevelArg::KillAll => {
            if domains.len() > 0 || tools.len() > 0 {
                return Err(owned("--domain/--tool are only valid with --level domain-block/tool-freeze"));
            }
            Ok(EstopLevel::KillAll)
        },
        EstopLevelArg::NetworkKill => {
            if domains.len() > 0 || tools.len() > 0 {
                return Err(owned("--domain/--tool are not valid with --level network-kill"));
            }
            Ok(EstopLevel::NetworkKill)
        },
        EstopLevelArg::DomainBlock => {
            if domains.len() == 0 {
                return Err(owned("--level domain-block requires at least one --domain"));
            }
            if tools.len() > 0 {
                return Err(owned("--tool is not valid with --level domain-block"));
            }
            Ok(EstopLevel::DomainBlock(domains))
        },
        EstopLevelArg::ToolFreeze => {
            if tools.len() == 0 {
                return Err(owned("--level tool-freeze requires at least one --tool"));
            }
            if domains.len() > 0 {
                return Err(owned("--domain is not valid with --level tool-freeze"));
            }
            Ok(EstopLevel::ToolFreeze(tools))
        },
    }
}

/// Turns the `estop resume` flags into a selector: at most one of them may
/// be given, and none means the global kill.
pub fn build_resume_selector(
    network: bool,
    domains: Vec<String>,
    tools: Vec<String>,
) -> (r: Result<ResumeSelector, String>)
    ensures
        ({
            let count = (if network { 1int } else { 0 }) + (if domains@.len() > 0 { 1int } else { 0 })
                + (if tools@.len() > 0 { 1int } else { 0 });
            &&& r is Err <==> count > 1
            &&& r matches Err(e) ==> e@ == "Use only one of --network, --domain, or --tool for estop resume"@
            &&& r matches Ok(s) ==> if network {
                s is Network
            } else if domains@.len() > 0 {
                s matches ResumeSelector::Domains(d) && d@ == domains@
            } else if tools@.len() > 0 {
                s matches ResumeSelector::Tools(t) && t@ == tools@
            } else {
                s is KillAll
            }
        }),
{
    let selected: usize = (if network { 1usize } else { 0 }) + (if domains.len() > 0 { 1usize } else { 0 })
        + (if tools.len() > 0 { 1usize } else { 0 });
    if selected > 1 {
        return Err(owned("Use only one of --network, --domain, or --tool for estop resume"));
    }
    if network {
        return Ok(ResumeSelector::Network);
    }
    if domains.len() > 0 {
        return Ok(ResumeSelector::Domains(domains));
    }
    if tools.len() > 0 {
        return Ok(ResumeSelector::Tools(tools));
    }
    Ok(ResumeSelector::KillAll)
}

/// Whether the blocked-domain `pattern` covers `domain`.
pub fn pattern_covers(pattern: &str, domain: &str) -> (r: bool)
    ensures
        r == domain_pattern_covers(pattern@, domain@),
{
    if str_eq(pattern, "*") {
        return true;
    }
    let n = pattern.unicode_len();
    if n >= 2 && crate::text::starts_with(pattern, "*.") {
        proof { reveal_strlit("*."); }
        let bare = pattern.substring_char(2, n);
        let dotted = pattern.substring_char(1, n);
        return str_eq(domain, bare) || ends_with(domain, dotted);
    }
    proof {
        reveal_strlit("*.");
        if n >= 2 {
            assert(!(pattern@.subrange(0, 2) == "*."@));
        }
    }
    str_eq(domain, pattern)
}

} // verus!
