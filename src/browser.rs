//! The browser tool: backend choice, URL allowlisting, and the command
//! lines and selectors that drive a browser backend.
use vstd::prelude::*;
use std::sync::Arc;
use crate::netaddr::{is_private_host, private_host};
use crate::security::SecurityPolicy;
use crate::text::{
    decimal, decimal_string,
    ascii_lower_replacing, before_char, ends_with, has_prefix, has_suffix, index_of_char,
    lower_of, lowercase, owned, starts_with, str_eq, swap_char, ascii_lower_char, trim,
    trimmed, views,
};

verus! {

/// The backend named in the configuration.
#[derive(Debug, Clone, Copy, PartialEq, Eq, Structural)]
pub enum BrowserBackendKind {
    AgentBrowser,
    RustNative,
    Auto,
}

/// The backend that actions run on.
#[derive(Debug, Clone, Copy, PartialEq, Eq, Structural)]
pub enum ResolvedBackend {
    AgentBrowser,
    RustNative,
}

/// The normal form of a backend name: trimmed, ASCII lower case, `-` as `_`.
pub open spec fn backend_key(raw: Seq<char>) -> Seq<char> {
    trimmed(raw).map_values(|c: char| swap_char(ascii_lower_char(c), '-', '_'))
}

pub open spec fn backend_of_key(key: Seq<char>) -> Option<BrowserBackendKind> {
    if key == "agent_browser"@ || key == "agentbrowser"@ {
        Some(BrowserBackendKind::AgentBrowser)
    } else if key == "rust_native"@ || key == "native"@ {
        Some(BrowserBackendKind::RustNative)
    } else if key == "auto"@ {
        Some(BrowserBackendKind::Auto)
    } else {
        None
    }
}

pub open spec fn backend_text(k: BrowserBackendKind) -> Seq<char> {
    match k {
        BrowserBackendKind::AgentBrowser => "agent_browser"@,
        BrowserBackendKind::RustNative => "rust_native"@,
        BrowserBackendKind::Auto => "auto"@,
    }
}

pub open spec fn unsupported_backend_message(raw: Seq<char>) -> Seq<char> {
    "Unsupported browser backend '"@ + raw + "'. Use 'agent_browser', 'rust_native', or 'auto'"@
}

impl BrowserBackendKind {
    /// Reads a backend name, ignoring case, surrounding whitespace and `-` versus `_`.
    pub fn parse(raw: &str) -> (r: Result<Self, String>)
        ensures
            match backend_of_key(backend_key(raw@)) {
                Some(k) => r == Ok::<BrowserBackendKind, String>(k),
                None => r matches Err(e) && e@ == unsupported_backend_message(raw@),
            },
    {
        let key = ascii_lower_replacing(trim(raw), '-', '_');
        let k = key.as_str();
        if str_eq(k, "agent_browser") || str_eq(k, "agentbrowser") {
            Ok(BrowserBackendKind::AgentBrowser)
        } else if str_eq(k, "rust_native") || str_eq(k, "native") {
            Ok(BrowserBackendKind::RustNative)
        } else if str_eq(k, "auto") {
            Ok(BrowserBackendKind::Auto)
        } else {
            let mut e = owned("Unsupported browser backend '");
            e.append(raw);
            e.append("'. Use 'agent_browser', 'rust_native', or 'auto'");
            Err(e)
        }
    }

    pub fn as_str(self) -> (r: &'static str)
        ensures
            r@ == backend_text(self),
    {
        match self {
            BrowserBackendKind::AgentBrowser => "agent_browser",
            BrowserBackendKind::RustNative => "rust_native",
            BrowserBackendKind::Auto => "auto",
        }
    }
}

/// A browser action requested by the agent.
#[derive(Debug, Clone)]
pub enum BrowserAction {
    /// Navigate to a URL
    Open { url: String },
    /// Get accessibility snapshot with refs
    Snapshot { interactive_only: bool, compact: bool, depth: Option<u32> },
    /// Click an element by ref or selector
    Click { selector: String },
    /// Fill a form field
    Fill { selector: String, value: String },
    /// Type text into focused element
    Type { selector: String, text: String },
    /// Get text content of element
    GetText { selector: String },
    /// Get page title
    GetTitle,
    /// Get current URL
    GetUrl,
    /// Take screenshot
    Screenshot { path: Option<String>, full_page: bool },
    /// Wait for element or time
    Wait { selector: Option<String>, ms: Option<u64>, text: Option<String> },
    /// Press a key
    Press { key: String },
    /// Hover over element
    Hover { selector: String },
    /// Scroll page
    Scroll { direction: String, pixels: Option<u32> },
    /// Check if element is visible
    IsVisible { selector: String },
    /// Close browser
    Close,
    /// Find element by semantic locator
    Find { by: String, value: String, action: String, fill_value: Option<String> },
}

/// Each domain trimmed and lower-cased, the empty ones dropped.
pub open spec fn normalized_domains(ds: Seq<Seq<char>>) -> Seq<Seq<char>>
    decreases ds.len(),
{
    if ds.len() == 0 {
        Seq::empty()
    } else {
        let rest = normalized_domains(ds.drop_last());
        let d = lower_of(trimmed(ds.last()));
        if d.len() > 0 { rest.push(d) } else { rest }
    }
}

/// Trims and lower-cases each domain and drops the empty ones.
pub fn normalize_domains(domains: Vec<String>) -> (r: Vec<String>)
    ensures
        views(r@) == normalized_domains(views(domains@)),
{
    let mut out: Vec<String> = Vec::new();
    let mut i: usize = 0;
    while i < domains.len()
        invariant
            i <= domains@.len(),
            views(out@) == normalized_domains(views(domains@).take(i as int)),
        decreases domains@.len() - i,
    {
        let d = lowercase(trim(domains[i].as_str()));
        let ghost prev = out@;
        proof {
            let t = views(domains@).take(i + 1);
            assert(t.drop_last() =~= views(domains@).take(i as int));
            assert(t.last() == domains@[i as int]@);
        }
        if d.as_str().unicode_len() > 0 {
            out.push(d);
            assert(views(out@) =~= views(prev).push(d@));
        }
        i = i + 1;
    }
    assert(views(domains@).take(domains@.len() as int) =~= views(domains@));
    out
}

/// The URL without an `https://`, `http://` or `file://` scheme.
pub open spec fn without_scheme(url: Seq<char>) -> Seq<char> {
    if has_prefix(url, "https://"@) {
        url.skip(8)
    } else if has_prefix(url, "http://"@) {
        url.skip(7)
    } else if has_prefix(url, "file://"@) {
        url.skip(7)
    } else {
        url
    }
}

/// The host part of an authority: a bracketed IPv6 address through its `]`,
/// else everything before the port separator.
pub open spec fn authority_host(authority: Seq<char>) -> Seq<char> {
    if authority.len() > 0 && authority[0] == '[' {
        let b = before_char(authority, ']');
        if b.len() < authority.len() { authority.take(b.len() + 1int) } else { authority }
    } else {
        before_char(authority, ':')
    }
}

/// The host of a URL, before lower-casing.
pub open spec fn raw_host(url: Seq<char>) -> Seq<char> {
    authority_host(before_char(without_scheme(trimmed(url)), '/'))
}

/// Extracts the lower-cased host of a URL, keeping IPv6 brackets.
pub fn extract_host(url_str: &str) -> (r: Result<String, String>)
    ensures
        raw_host(url_str@).len() == 0 ==> (r matches Err(e) && e@ == "Invalid URL: no host"@),
        raw_host(url_str@).len() > 0 ==> (r matches Ok(h) && h@ == lower_of(raw_host(url_str@))),
{
    let url = trim(url_str);
    let n = url.unicode_len();
    proof {
        reveal_strlit("https://");
        reveal_strlit("http://");
        reveal_strlit("file://");
    }
    let rest = if starts_with(url, "https://") {
        url.substring_char(8, n)
    } else if starts_with(url, "http://") {
        url.substring_char(7, n)
    } else if starts_with(url, "file://") {
        url.substring_char(7, n)
    } else {
        url
    };
    let slash = index_of_char(rest, '/');
    let authority = rest.substring_char(0, slash);
    let an = authority.unicode_len();
    let host = if an > 0 && authority.get_char(0) == '[' {
        let close = index_of_char(authority, ']');
        if close < an {
            authority.substring_char(0, close + 1)
        } else {
            authority
        }
    } else {
        let colon = index_of_char(authority, ':');
        authority.substring_char(0, colon)
    };
    if host.unicode_len() == 0 {
        return Err(owned("Invalid URL: no host"));
    }
    Ok(lowercase(host))
}

/// Whether an allowlist pattern admits `host`: `*` admits all hosts,
/// `*.example.com` admits `example.com` and its subdomains, and a plain
/// domain admits itself and its subdomains.
pub open spec fn pattern_admits(pattern: Seq<char>, host: Seq<char>) -> bool {
    if pattern == "*"@ {
        true
    } else if has_prefix(pattern, "*."@) {
        has_suffix(host, pattern.skip(1)) || host == pattern.skip(2)
    } else {
        host == pattern || has_suffix(host, "."@ + pattern)
    }
}

pub open spec fn allowlist_admits(host: Seq<char>, allowed: Seq<Seq<char>>) -> bool {
    exists|i: int| 0 <= i < allowed.len() && pattern_admits(#[trigger] allowed[i], host)
}

fn pattern_admits_exec(pattern: &str, host: &str) -> (r: bool)
    ensures
        r == pattern_admits(pattern@, host@),
{
    if str_eq(pattern, "*") {
        return true;
    }
    let n = pattern.unicode_len();
    proof { reveal_strlit("*."); }
    if starts_with(pattern, "*.") {
        let suffix = pattern.substring_char(1, n);
        let bare = pattern.substring_char(2, n);
        assert(suffix@ =~= pattern@.skip(1));
        assert(bare@ =~= pattern@.skip(2));
        return ends_with(host, suffix) || str_eq(host, bare);
    }
    let mut dotted = owned(".");
    dotted.append(pattern);
    str_eq(host, pattern) || ends_with(host, dotted.as_str())
}

/// Whether some pattern of the allowlist admits `host`.
pub fn host_matches_allowlist(host: &str, allowed: &[String]) -> (r: bool)
    ensures
        r == allowlist_admits(host@, views(allowed@)),
{
    let mut i: usize = 0;
    while i < allowed.len()
        invariant
            i <= allowed@.len(),
            forall|j: int| 0 <= j < i ==> !pattern_admits(#[trigger] views(allowed@)[j], host@),
        decreases allowed@.len() - i,
    {
        if pattern_admits_exec(allowed[i].as_str(), host) {
            assert(pattern_admits(views(allowed@)[i as int], host@));
            return true;
        }
        assert(views(allowed@)[i as int] == allowed@[i as int]@);
        i = i + 1;
    }
    false
}

pub const BROWSER_TOOL_DESCRIPTION: &'static str = "Web browser automation with pluggable backends (agent-browser or rust-native). Supports navigation, clicking, filling forms, screenshots, and page snapshots. Use 'snapshot' to map interactive elements to refs (@e1, @e2), then use refs for precise interaction. Enforces browser.allowed_domains for open actions.";

/// Browser automation tool.
pub struct BrowserTool {
    security: Arc<SecurityPolicy>,
    allowed_domains: Vec<String>,
    session_name: Option<String>,
    backend: String,
    native_headless: bool,
    native_chrome_path: Option<String>,
}

impl BrowserTool {
    /// The normalized allowlist.
    pub closed spec fn domains(&self) -> Seq<Seq<char>> {
        views(self.allowed_domains@)
    }

    /// The configured backend name.
    pub closed spec fn backend_name(&self) -> Seq<char> {
        self.backend@
    }

    pub closed spec fn session(&self) -> Option<Seq<char>> {
        match self.session_name {
            Some(s) => Some(s@),
            None => None,
        }
    }

    /// A tool on the `agent_browser` backend, headless, with no Chrome path.
    pub fn new(
        security: Arc<SecurityPolicy>,
        allowed_domains: Vec<String>,
        session_name: Option<String>,
    ) -> (r: Self)
        ensures
            r.domains() == normalized_domains(views(allowed_domains@)),
            r.backend_name() == "agent_browser"@,
            r.session() == (match session_name { Some(s) => Some(s@), None => None::<Seq<char>> }),
    {
        Self::new_with_backend(security, allowed_domains, session_name, owned("agent_browser"), true, None)
    }

    pub fn new_with_backend(
        security: Arc<SecurityPolicy>,
        allowed_domains: Vec<String>,
        session_name: Option<String>,
        backend: String,
        native_headless: bool,
        native_chrome_path: Option<String>,
    ) -> (r: Self)
        ensures
            r.domains() == normalized_domains(views(allowed_domains@)),
            r.backend_name() == backend@,
            r.session() == (match session_name { Some(s) => Some(s@), None => None::<Seq<char>> }),
    {
        BrowserTool {
            security,
            allowed_domains: normalize_domains(allowed_domains),
            session_name,
            backend,
            native_headless,
            native_chrome_path,
        }
    }

    pub fn name(&self) -> (r: &'static str)
        ensures
            r@ == "browser"@,
    {
        "browser"
    }

    pub fn description(&self) -> (r: &'static str)
        ensures
            r@ == BROWSER_TOOL_DESCRIPTION@,
    {
        BROWSER_TOOL_DESCRIPTION
    }

    /// The backend that the configuration names.
    pub fn configured_backend(&self) -> (r: Result<BrowserBackendKind, String>)
        ensures
            match backend_of_key(backend_key(self.backend_name())) {
                Some(k) => r == Ok::<BrowserBackendKind, String>(k),
                None => r matches Err(e) && e@ == unsupported_backend_message(self.backend_name()),
            },
    {
        BrowserBackendKind::parse(self.backend.as_str())
    }

    /// Checks a URL before the browser opens it: `file://` URLs pass; other
    /// URLs must be `http(s)://`, the allowlist must be non-empty, and the
    /// host must be public and admitted by the allowlist.
    pub fn validate_url(&self, url: &str) -> (r: Result<(), String>)
        ensures
            match url_verdict(url@, self.domains()) {
                Ok(()) => r is Ok,
                Err(m) => r matches Err(e) && e@ == m,
            },
    {
        let u = trim(url);
        if u.unicode_len() == 0 {
            return Err(owned("URL cannot be empty"));
        }
        if starts_with(u, "file://") {
            return Ok(());
        }
        if !starts_with(u, "https://") && !starts_with(u, "http://") {
            return Err(owned("Only http:// and https:// URLs are allowed"));
        }
        if self.allowed_domains.len() == 0 {
            return Err(owned(
                "Browser tool enabled but no allowed_domains configured. Add [browser].allowed_domains in config.toml",
            ));
        }
        let host = match extract_host(url) {
            Ok(h) => h,
            Err(e) => return Err(e),
        };
        if is_private_host(host.as_str()) {
            let mut e = owned("Blocked local/private host: ");
            e.append(host.as_str());
            return Err(e);
        }
        if !host_matches_allowlist(host.as_str(), self.allowed_domains.as_slice()) {
            let mut e = owned("Host '");
            e.append(host.as_str());
            e.append("' not in browser.allowed_domains");
            return Err(e);
        }
        Ok(())
    }

    /// Whether this build carries the Rust-native backend. It does not: the
    /// native backend is an optional build of its own.
    pub fn rust_native_compiled() -> (r: bool)
        ensures
            !r,
    {
        false
    }

    /// Whether the Rust-native backend can launch a browser here; never
    /// without the native backend compiled in.
    pub fn rust_native_available(&self) -> (r: bool)
        ensures
            !r,
    {
        false
    }
}

/// What `validate_url` decides for a URL against an allowlist, with the
/// text of its error.
pub open spec fn url_verdict(url: Seq<char>, allowed: Seq<Seq<char>>) -> Result<(), Seq<char>> {
    let u = trimmed(url);
    let host = lower_of(raw_host(url));
    if u.len() == 0 {
        Err("URL cannot be empty"@)
    } else if has_prefix(u, "file://"@) {
        Ok(())
    } else if !has_prefix(u, "https://"@) && !has_prefix(u, "http://"@) {
        Err("Only http:// and https:// URLs are allowed"@)
    } else if allowed.len() == 0 {
        Err("Browser tool enabled but no allowed_domains configured. Add [browser].allowed_domains in config.toml"@)
    } else if raw_host(url).len() == 0 {
        Err("Invalid URL: no host"@)
    } else if private_host(host) {
        Err("Blocked local/private host: "@ + host)
    } else if !allowlist_admits(host, allowed) {
        Err("Host '"@ + host + "' not in browser.allowed_domains"@)
    } else {
        Ok(())
    }
}

pub open spec fn opt_arg(o: Option<String>) -> Seq<Seq<char>> {
    match o {
        Some(v) => seq![v@],
        None => Seq::empty(),
    }
}

pub open spec fn flag_arg(on: bool, flag: Seq<char>) -> Seq<Seq<char>> {
    if on { seq![flag] } else { Seq::empty() }
}

/// The `agent-browser` arguments for an action.
pub open spec fn action_args(a: BrowserAction) -> Seq<Seq<char>> {
    match a {
        BrowserAction::Open { url } => seq!["open"@, url@],
        BrowserAction::Snapshot { interactive_only, compact, depth } => seq!["snapshot"@]
            + flag_arg(interactive_only, "-i"@) + flag_arg(compact, "-c"@)
            + (match depth { Some(d) => seq!["-d"@, decimal(d as nat)], None => Seq::empty() }),
        BrowserAction::Click { selector } => seq!["click"@, selector@],
        BrowserAction::Fill { selector, value } => seq!["fill"@, selector@, value@],
        BrowserAction::Type { selector, text } => seq!["type"@, selector@, text@],
        BrowserAction::GetText { selector } => seq!["get"@, "text"@, selector@],
        BrowserAction::GetTitle => seq!["get"@, "title"@],
        BrowserAction::GetUrl => seq!["get"@, "url"@],
        BrowserAction::Screenshot { path, full_page } => seq!["screenshot"@] + opt_arg(path)
            + flag_arg(full_page, "--full"@),
        BrowserAction::Wait { selector, ms, text } => seq!["wait"@] + (match (selector, ms, text) {
            (Some(sel), _, _) => seq![sel@],
            (None, Some(m), _) => seq![decimal(m as nat)],
            (None, None, Some(t)) => seq!["--text"@, t@],
            (None, None, None) => Seq::empty(),
        }),
        BrowserAction::Press { key } => seq!["press"@, key@],
        BrowserAction::Hover { selector } => seq!["hover"@, selector@],
        BrowserAction::Scroll { direction, pixels } => seq!["scroll"@, direction@]
            + (match pixels { Some(p) => seq![decimal(p as nat)], None => Seq::empty() }),
        BrowserAction::IsVisible { selector } => seq!["is"@, "visible"@, selector@],
        BrowserAction::Close => seq!["close"@],
        BrowserAction::Find { by, value, action, fill_value } => seq!["find"@, by@, value@, action@]
            + opt_arg(fill_value),
    }
}

fn push_str(v: &mut Vec<String>, s: &str)
    ensures
        views(final(v)@) == views(old(v)@).push(s@),
{
    let ghost before = v@;
    v.push(owned(s));
    assert(views(v@) =~= views(before).push(s@));
}

fn push_opt(v: &mut Vec<String>, o: &Option<String>)
    ensures
        views(final(v)@) == views(old(v)@) + opt_arg(*o),
{
    let ghost before = views(v@);
    match o {
        Some(s) => push_str(v, s.as_str()),
        None => {},
    }
    assert(views(v@) =~= before + opt_arg(*o));
}

fn push_flag(v: &mut Vec<String>, on: bool, flag: &str)
    ensures
        views(final(v)@) == views(old(v)@) + flag_arg(on, flag@),
{
    let ghost before = views(v@);
    if on {
        push_str(v, flag);
    }
    assert(views(v@) =~= before + flag_arg(on, flag@));
}

fn push_number(v: &mut Vec<String>, n: u64)
    ensures
        views(final(v)@) == views(old(v)@).push(decimal(n as nat)),
{
    let ghost before = v@;
    v.push(decimal_string(n));
    assert(views(v@) =~= views(before).push(decimal(n as nat)));
}

/// The `agent-browser` arguments for an action.
pub fn agent_browser_args(action: &BrowserAction) -> (r: Vec<String>)
    ensures
        views(r@) == action_args(*action),
{
    let mut v: Vec<String> = Vec::new();
    assert(views(v@) =~= Seq::<Seq<char>>::empty());
    match action {
        BrowserAction::Open { url } => {
            push_str(&mut v, "open");
            push_str(&mut v, url.as_str());
        },
        BrowserAction::Snapshot { interactive_only, compact, depth } => {
            push_str(&mut v, "snapshot");
            push_flag(&mut v, *interactive_only, "-i");
            push_flag(&mut v, *compact, "-c");
            let ghost mid = views(v@);
            match depth {
                Some(d) => {
                    push_str(&mut v, "-d");
                    push_number(&mut v, *d as u64);
                },
                None => {},
            }
            assert(views(v@) =~= mid + (match *depth { Some(d) => seq!["-d"@, decimal(d as nat)], None => Seq::<Seq<char>>::empty() }));
        },
        BrowserAction::Click { selector } => {
            push_str(&mut v, "click");
            push_str(&mut v, selector.as_str());
        },
        BrowserAction::Fill { selector, value } => {
            push_str(&mut v, "fill");
            push_str(&mut v, selector.as_str());
            push_str(&mut v, value.as_str());
        },
        BrowserAction::Type { selector, text } => {
            push_str(&mut v, "type");
            push_str(&mut v, selector.as_str());
            push_str(&mut v, text.as_str());
        },
        BrowserAction::GetText { selector } => {
            push_str(&mut v, "get");
            push_str(&mut v, "text");
            push_str(&mut v, selector.as_str());
        },
        BrowserAction::GetTitle => {
            push_str(&mut v, "get");
            push_str(&mut v, "title");
        },
        BrowserAction::GetUrl => {
            push_str(&mut v, "get");
            push_str(&mut v, "url");
        },
        BrowserAction::Screenshot { path, full_page } => {
            push_str(&mut v, "screenshot");
            push_opt(&mut v, path);
            push_flag(&mut v, *full_page, "--full");
        },
        BrowserAction::Wait { selector, ms, text } => {
            push_str(&mut v, "wait");
            let ghost mid = views(v@);
            match selector {
                Some(sel) => push_str(&mut v, sel.as_str()),
                None => match ms {
                    Some(m) => push_number(&mut v, *m),
                    None => match text {
                        Some(t) => {
                            push_str(&mut v, "--text");
                            push_str(&mut v, t.as_str());
                        },
                        None => {},
                    },
                },
            }
            assert(views(v@) =~= mid + (match (*selector, *ms, *text) {
                (Some(sel), _, _) => seq![sel@],
                (None, Some(m), _) => seq![decimal(m as nat)],
                (None, None, Some(t)) => seq!["--text"@, t@],
                (None, None, None) => Seq::<Seq<char>>::empty(),
            }));
        },
        BrowserAction::Press { key } => {
            push_str(&mut v, "press");
            push_str(&mut v, key.as_str());
        },
        BrowserAction::Hover { selector } => {
            push_str(&mut v, "hover");
            push_str(&mut v, selector.as_str());
        },
        BrowserAction::Scroll { direction, pixels } => {
            push_str(&mut v, "scroll");
            push_str(&mut v, direction.as_str());
            let ghost mid = views(v@);
            match pixels {
                Some(p) => push_number(&mut v, *p as u64),
                None => {},
            }
            assert(views(v@) =~= mid + (match *pixels { Some(p) => seq![decimal(p as nat)], None => Seq::<Seq<char>>::empty() }));
        },
        BrowserAction::IsVisible { selector } => {
            push_str(&mut v, "is");
            push_str(&mut v, "visible");
            push_str(&mut v, selector.as_str());
        },
        BrowserAction::Close => {
            push_str(&mut v, "close");
        },
        BrowserAction::Find { by, value, action, fill_value } => {
            push_str(&mut v, "find");
            push_str(&mut v, by.as_str());
            push_str(&mut v, value.as_str());
            push_str(&mut v, action.as_str());
            push_opt(&mut v, fill_value);
        },
    }
    assert(views(v@) =~= action_args(*action));
    v
}

pub open spec fn session_args(session: Option<Seq<char>>) -> Seq<Seq<char>> {
    match session {
        Some(name) => seq!["--session"@, name],
        None => Seq::empty(),
    }
}

impl BrowserTool {
    /// The full `agent-browser` command line for an action: the session, the
    /// action's arguments, then `--json`. An `open` of a URL that
    /// `validate_url` refuses yields its error instead.
    pub fn agent_browser_command(&self, action: &BrowserAction) -> (r: Result<Vec<String>, String>)
        ensures
            match *action {
                BrowserAction::Open { url } => match url_verdict(url@, self.domains()) {
                    Err(m) => r matches Err(e) && e@ == m,
                    Ok(()) => r is Ok,
                },
                _ => r is Ok,
            },
            r matches Ok(v) ==> views(v@) == session_args(self.session()) + action_args(*action) + seq!["--json"@],
    {
        match action {
            BrowserAction::Open { url } => {
                match self.validate_url(url.as_str()) {
                    Err(e) => return Err(e),
                    Ok(()) => {},
                }
            },
            _ => {},
        }
        let mut v: Vec<String> = Vec::new();
        assert(views(v@) =~= Seq::<Seq<char>>::empty());
        match &self.session_name {
            Some(name) => {
                push_str(&mut v, "--session");
                push_str(&mut v, name.as_str());
            },
            None => {},
        }
        assert(views(v@) =~= session_args(self.session()));
        let args = agent_browser_args(action);
        let ghost head = views(v@);
        let mut i: usize = 0;
        while i < args.len()
            invariant
                i <= args@.len(),
                views(v@) == head + views(args@).take(i as int),
            decreases args@.len() - i,
        {
            push_str(&mut v, args[i].as_str());
            assert(views(args@).take(i + 1) =~= views(args@).take(i as int).push(args@[i as int]@));
            i = i + 1;
        }
        assert(views(args@).take(args@.len() as int) =~= views(args@));
        push_str(&mut v, "--json");
        Ok(v)
    }

    /// Why an action may not run now, if it may not: the policy forbids
    /// acting, or the hourly action budget is spent.
    pub fn blocked_reason(&self, actions_in_last_hour: u32) -> (r: Option<String>)
        ensures
            self.security_policy().autonomy == crate::security::AutonomyLevel::ReadOnly
                ==> (r matches Some(m) && m@ == "Action blocked: autonomy is read-only"@),
            self.security_policy().autonomy != crate::security::AutonomyLevel::ReadOnly
                && actions_in_last_hour >= self.security_policy().max_actions_per_hour
                ==> (r matches Some(m) && m@ == "Action blocked: rate limit exceeded"@),
            r is None <==> (self.security_policy().autonomy != crate::security::AutonomyLevel::ReadOnly
                && actions_in_last_hour < self.security_policy().max_actions_per_hour),
    {
        if !self.security.can_act() {
            return Some(owned("Action blocked: autonomy is read-only"));
        }
        if !self.security.allows_another_action(actions_in_last_hour) {
            return Some(owned("Action blocked: rate limit exceeded"));
        }
        None
    }

    pub closed spec fn security_policy(&self) -> SecurityPolicy {
        *self.security
    }

    /// Picks the backend that actions run on, from the configuration and
    /// whether the `agent-browser` CLI was found.
    pub fn resolve_backend(&self, agent_browser_available: bool) -> (r: Result<ResolvedBackend, String>)
        ensures
            match backend_of_key(backend_key(self.backend_name())) {
                Some(k) => match backend_choice(k, false, false, agent_browser_available) {
                    Ok(b) => r == Ok::<ResolvedBackend, String>(b),
                    Err(m) => r matches Err(e) && e@ == m,
                },
                None => r matches Err(e) && e@ == unsupported_backend_message(self.backend_name()),
            },
    {
        let configured = match self.configured_backend() {
            Ok(k) => k,
            Err(e) => return Err(e),
        };
        choose_backend(configured, Self::rust_native_compiled(), self.rust_native_available(), agent_browser_available)
    }
}

/// Which backend serves a configuration, given what this machine offers.
pub open spec fn backend_choice(
    configured: BrowserBackendKind,
    native_compiled: bool,
    native_available: bool,
    agent_available: bool,
) -> Result<ResolvedBackend, Seq<char>> {
    match configured {
        BrowserBackendKind::AgentBrowser => if agent_available {
            Ok(ResolvedBackend::AgentBrowser)
        } else {
            Err("browser.backend='agent_browser' but agent-browser CLI is unavailable. Install with: npm install -g agent-browser"@)
        },
        BrowserBackendKind::RustNative => if !native_compiled {
            Err("browser.backend='rust_native' requires build feature 'browser-native'"@)
        } else if !native_available {
            Err("Rust-native browser backend is enabled but no Chrome/Chromium executable was found"@)
        } else {
            Ok(ResolvedBackend::RustNative)
        },
        BrowserBackendKind::Auto => if native_compiled && native_available {
            Ok(ResolvedBackend::RustNative)
        } else if agent_available {
            Ok(ResolvedBackend::AgentBrowser)
        } else if native_compiled {
            Err("browser.backend='auto' found no usable backend (agent-browser missing, rust-native unavailable)"@)
        } else {
            Err("browser.backend='auto' needs agent-browser CLI, or build with --features browser-native"@)
        },
    }
}

/// Picks a backend; see `backend_choice`.
pub fn choose_backend(
    configured: BrowserBackendKind,
    native_compiled: bool,
    native_available: bool,
    agent_available: bool,
) -> (r: Result<ResolvedBackend, String>)
    ensures
        match backend_choice(configured, native_compiled, native_available, agent_available) {
            Ok(b) => r == Ok::<ResolvedBackend, String>(b),
            Err(m) => r matches Err(e) && e@ == m,
        },
{
    match configured {
        BrowserBackendKind::AgentBrowser => {
            if agent_available {
                Ok(ResolvedBackend::AgentBrowser)
            } else {
                let mut e = owned("browser.backend='");
                e.append(configured.as_str());
                e.append("' but agent-browser CLI is unavailable. Install with: npm install -g agent-browser");
                proof { reveal_strlit("agent_browser"); reveal_strlit("browser.backend='"); reveal_strlit("' but agent-browser CLI is unavailable. Install with: npm install -g agent-browser"); reveal_strlit("browser.backend='agent_browser' but agent-browser CLI is unavailable. Install with: npm install -g agent-browser"); }
                assert(e@ =~= "browser.backend='agent_browser' but agent-browser CLI is unavailable. Install with: npm install -g agent-browser"@);
                Err(e)
            }
        },
        BrowserBackendKind::RustNative => {
            if !native_compiled {
                Err(owned("browser.backend='rust_native' requires build feature 'browser-native'"))
            } else if !native_available {
                Err(owned("Rust-native browser backend is enabled but no Chrome/Chromium executable was found"))
            } else {
                Ok(ResolvedBackend::RustNative)
            }
        },
        BrowserBackendKind::Auto => {
            if native_compiled && native_available {
                Ok(ResolvedBackend::RustNative)
            } else if agent_available {
                Ok(ResolvedBackend::AgentBrowser)
            } else if native_compiled {
                Err(owned("browser.backend='auto' found no usable backend (agent-browser missing, rust-native unavailable)"))
            } else {
                Err(owned("browser.backend='auto' needs agent-browser CLI, or build with --features browser-native"))
            }
        },
    }
}

/// How far a scroll moves, as (dx, dy); 600 pixels unless given.
pub open spec fn scroll_delta_of(direction: Seq<char>, pixels: Option<u32>) -> Option<(int, int)> {
    let amount: int = match pixels { Some(p) => p as int, None => 600 };
    if direction == "up"@ {
        Some((0, -amount))
    } else if direction == "down"@ {
        Some((0, amount))
    } else if direction == "left"@ {
        Some((-amount, 0))
    } else if direction == "right"@ {
        Some((amount, 0))
    } else {
        None
    }
}

/// The scroll offset for a direction; other directions are refused.
pub fn scroll_delta(direction: &str, pixels: Option<u32>) -> (r: Result<(i64, i64), String>)
    ensures
        match scroll_delta_of(direction@, pixels) {
            Some((dx, dy)) => r matches Ok((x, y)) && x as int == dx && y as int == dy,
            None => r matches Err(e) && e@ == "Unsupported scroll direction '"@ + direction@
                + "'. Use up/down/left/right"@,
        },
{
    let amount: i64 = match pixels {
        Some(p) => p as i64,
        None => 600,
    };
    if str_eq(direction, "up") {
        Ok((0, -amount))
    } else if str_eq(direction, "down") {
        Ok((0, amount))
    } else if str_eq(direction, "left") {
        Ok((-amount, 0))
    } else if str_eq(direction, "right") {
        Ok((amount, 0))
    } else {
        let mut e = owned("Unsupported scroll direction '");
        e.append(direction);
        e.append("'. Use up/down/left/right");
        Err(e)
    }
}

} // verus!
