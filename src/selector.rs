//! Element selectors, XPath literals and the page snapshot script used by
//! the Rust-native browser backend.
use vstd::prelude::*;
use crate::netaddr::split_str;
use crate::netaddr::split_on;
use crate::text::{
    bool_string, bool_text, contains_char, decimal, decimal_string, has_prefix, join_strings,
    join_with, owned, push_char, starts_with, str_eq, trim, trimmed, views,
};

verus! {

/// How a selector addresses an element.
#[derive(Debug, Clone)]
pub enum SelectorKind {
    Css(String),
    XPath(String),
}

/// A character as it stands inside a double-quoted CSS attribute value.
pub open spec fn css_char_escape(c: char) -> Seq<char> {
    if c == '\\' {
        seq!['\\', '\\']
    } else if c == '"' {
        seq!['\\', '"']
    } else if c == '\n' {
        seq![' ']
    } else {
        seq![c]
    }
}

/// `s` with backslashes doubled, quotes backslash-escaped and newlines as spaces.
pub open spec fn css_escaped(s: Seq<char>) -> Seq<char>
    decreases s.len(),
{
    if s.len() == 0 {
        Seq::empty()
    } else {
        css_escaped(s.drop_last()) + css_char_escape(s.last())
    }
}

/// Escapes a value for a double-quoted CSS attribute selector.
pub fn css_attr_escape(input: &str) -> (r: String)
    ensures
        r@ == css_escaped(input@),
{
    let n = input.unicode_len();
    let mut out = String::new();
    let mut i: usize = 0;
    assert(input@.take(0) =~= Seq::<char>::empty());
    while i < n
        invariant
            n == input@.len(),
            i <= n,
            out@ == css_escaped(input@.take(i as int)),
        decreases n - i,
    {
        let c = input.get_char(i);
        if c == '\\' {
            push_char(&mut out, '\\');
            push_char(&mut out, '\\');
        } else if c == '"' {
            push_char(&mut out, '\\');
            push_char(&mut out, '"');
        } else if c == '\n' {
            push_char(&mut out, ' ');
        } else {
            push_char(&mut out, c);
        }
        assert(input@.take(i + 1).drop_last() =~= input@.take(i as int));
        assert(input@.take(i + 1).last() == c);
        assert(out@ =~= css_escaped(input@.take(i as int)) + css_char_escape(c));
        i = i + 1;
    }
    assert(input@.take(n as int) =~= input@);
    out
}

/// The parts of a `concat(...)` XPath expression for text split at `"`:
/// each non-empty part in double quotes, and a quoted `"` between parts.
pub open spec fn xpath_pieces(ps: Seq<Seq<char>>) -> Seq<Seq<char>>
    decreases ps.len(),
{
    if ps.len() == 0 {
        Seq::empty()
    } else {
        (if ps[0].len() > 0 { seq!["\""@ + ps[0] + "\""@] } else { Seq::empty() })
            + (if ps.len() > 1 { seq!["'\"'"@] + xpath_pieces(ps.drop_first()) } else { Seq::empty() })
    }
}

/// An XPath string literal for any text: double quotes when it has no `"`,
/// else single quotes when it has no `'`, else a `concat(...)` of pieces.
pub open spec fn xpath_literal_text(s: Seq<char>) -> Seq<char> {
    if !s.contains('"') {
        "\""@ + s + "\""@
    } else if !s.contains('\'') {
        "'"@ + s + "'"@
    } else {
        let pieces = xpath_pieces(split_on(s, '"'));
        if pieces.len() == 0 { "\"\""@ } else { "concat("@ + join_with(pieces, ","@) + ")"@ }
    }
}

/// Quotes text as an XPath string literal.
pub fn xpath_literal(input: &str) -> (r: String)
    ensures
        r@ == xpath_literal_text(input@),
{
    if !contains_char(input, '"') {
        let mut s = owned("\"");
        s.append(input);
        s.append("\"");
        return s;
    }
    if !contains_char(input, '\'') {
        let mut s = owned("'");
        s.append(input);
        s.append("'");
        return s;
    }
    let split = split_str(input, '"');
    let ghost ps = views(split@);
    let mut parts: Vec<String> = Vec::new();
    let mut i: usize = 0;
    assert(ps.skip(0) =~= ps);
    assert(views(parts@) + xpath_pieces(ps.skip(0)) =~= xpath_pieces(ps));
    while i < split.len()
        invariant
            i <= split@.len(),
            ps == views(split@),
            views(parts@) + xpath_pieces(ps.skip(i as int)) == xpath_pieces(ps),
        decreases split@.len() - i,
    {
        let ghost prev = views(parts@);
        let ghost rest = ps.skip(i as int);
        assert(rest[0] == split@[i as int]@);
        assert(rest.drop_first() =~= ps.skip(i + 1));
        let part = split[i].as_str();
        if part.unicode_len() > 0 {
            let mut q = owned("\"");
            q.append(part);
            q.append("\"");
            parts.push(q);
        }
        if i + 1 < split.len() {
            parts.push(owned("'\"'"));
        }
        proof {
            let head = if rest[0].len() > 0 { seq!["\""@ + rest[0] + "\""@] } else { Seq::<Seq<char>>::empty() };
            if rest.len() > 1 {
                assert(views(parts@) =~= prev + head + seq!["'\"'"@]);
                assert(xpath_pieces(rest) == head + (seq!["'\"'"@] + xpath_pieces(rest.drop_first())));
                assert(prev + xpath_pieces(rest) =~= views(parts@) + xpath_pieces(ps.skip(i + 1)));
            } else {
                assert(views(parts@) =~= prev + head);
                assert(ps.skip(i + 1).len() == 0);
                assert(xpath_pieces(rest) =~= head);
                assert(prev + xpath_pieces(rest) =~= views(parts@) + xpath_pieces(ps.skip(i + 1)));
            }
        }
        i = i + 1;
    }
    assert(ps.skip(split@.len() as int).len() == 0);
    assert(views(parts@) =~= xpath_pieces(ps));
    if parts.len() == 0 {
        return owned("\"\"");
    }
    let mut s = owned("concat(");
    let joined = join_strings(parts.as_slice(), ",");
    s.append(joined.as_str());
    s.append(")");
    s
}

pub open spec fn contains_text_xpath(text: Seq<char>) -> Seq<char> {
    "//*[contains(normalize-space(.), "@ + xpath_literal_text(text) + ")]"@
}

/// An XPath that finds elements whose normalized text contains `text`.
pub fn xpath_contains_text(text: &str) -> (r: String)
    ensures
        r@ == contains_text_xpath(text@),
{
    let mut s = owned("//*[contains(normalize-space(.), ");
    let lit = xpath_literal(text);
    s.append(lit.as_str());
    s.append(")]");
    s
}

/// The selector that a semantic `find` locator stands for.
pub open spec fn find_selector(by: Seq<char>, value: Seq<char>) -> Seq<char> {
    let escaped = css_escaped(value);
    if by == "role"@ {
        "[role=\\\""@ + escaped + "\\\"]"@
    } else if by == "label"@ {
        "label="@ + value
    } else if by == "placeholder"@ {
        "[placeholder=\\\""@ + escaped + "\\\"]"@
    } else if by == "testid"@ {
        "[data-testid=\\\""@ + escaped + "\\\"]"@
    } else {
        "text="@ + value
    }
}

fn wrapped(head: &str, middle: &str, tail: &str) -> (r: String)
    ensures
        r@ == head@ + middle@ + tail@,
{
    let mut s = owned(head);
    s.append(middle);
    s.append(tail);
    s
}

/// Turns a `find` locator (role, label, placeholder, testid, or text) into a selector.
pub fn selector_for_find(by: &str, value: &str) -> (r: String)
    ensures
        r@ == find_selector(by@, value@),
{
    let escaped = css_attr_escape(value);
    proof {
        reveal_strlit("");
        assert(value@ + ""@ =~= value@);
    }
    if str_eq(by, "role") {
        wrapped("[role=\\\"", escaped.as_str(), "\\\"]")
    } else if str_eq(by, "label") {
        wrapped("label=", value, "")
    } else if str_eq(by, "placeholder") {
        wrapped("[placeholder=\\\"", escaped.as_str(), "\\\"]")
    } else if str_eq(by, "testid") {
        wrapped("[data-testid=\\\"", escaped.as_str(), "\\\"]")
    } else {
        wrapped("text=", value, "")
    }
}

/// How a selector string is read: `text=` and `label=` become XPath
/// queries, an `@ref` becomes a `data-zc-ref` attribute selector, and
/// anything else is CSS. Surrounding whitespace is ignored.
pub open spec fn selector_kind(selector: Seq<char>) -> (bool, Seq<char>) {
    let t = trimmed(selector);
    if has_prefix(t, "text="@) {
        (true, contains_text_xpath(t.skip(5)))
    } else if has_prefix(t, "label="@) {
        (true, "//label[contains(normalize-space(.), "@ + xpath_literal_text(t.skip(6)) + ")]"@)
    } else if has_prefix(t, "@"@) {
        (false, "[data-zc-ref=\\\""@ + css_escaped(t) + "\\\"]"@)
    } else {
        (false, t)
    }
}

impl SelectorKind {
    /// `(is_xpath, query)`.
    pub open spec fn parts(&self) -> (bool, Seq<char>) {
        match self {
            SelectorKind::Css(s) => (false, s@),
            SelectorKind::XPath(s) => (true, s@),
        }
    }
}

/// Reads a selector string.
pub fn parse_selector(selector: &str) -> (r: SelectorKind)
    ensures
        r.parts() == selector_kind(selector@),
{
    let t = trim(selector);
    let n = t.unicode_len();
    proof {
        reveal_strlit("text=");
        reveal_strlit("label=");
    }
    if starts_with(t, "text=") {
        let q = t.substring_char(5, n);
        assert(q@ =~= t@.skip(5));
        return SelectorKind::XPath(xpath_contains_text(q));
    }
    if starts_with(t, "label=") {
        let q = t.substring_char(6, n);
        assert(q@ =~= t@.skip(6));
        let lit = xpath_literal(q);
        return SelectorKind::XPath(wrapped("//label[contains(normalize-space(.), ", lit.as_str(), ")]"));
    }
    if starts_with(t, "@") {
        let escaped = css_attr_escape(t);
        return SelectorKind::Css(wrapped("[data-zc-ref=\\\"", escaped.as_str(), "\\\"]"));
    }
    SelectorKind::Css(owned(t))
}

pub const SNAPSHOT_SCRIPT_HEAD: &'static str = "(() => {\n  const interactiveOnly = ";
pub const SNAPSHOT_SCRIPT_AFTER_INTERACTIVE: &'static str = ";\n  const compact = ";
pub const SNAPSHOT_SCRIPT_AFTER_COMPACT: &'static str = ";\n  const maxDepth = ";
pub const SNAPSHOT_SCRIPT_TAIL: &'static str = ";\n  const nodes = [];\n  const root = document.body || document.documentElement;\n  let counter = 0;\n\n  const isVisible = (el) => {\n    const style = window.getComputedStyle(el);\n    if (style.display === 'none' || style.visibility === 'hidden' || Number(style.opacity || 1) === 0) {\n      return false;\n    }\n    const rect = el.getBoundingClientRect();\n    return rect.width > 0 && rect.height > 0;\n  };\n\n  const isInteractive = (el) => {\n    if (el.matches('a,button,input,select,textarea,summary,[role],*[tabindex]')) return true;\n    return typeof el.onclick === 'function';\n  };\n\n  const describe = (el, depth) => {\n    const interactive = isInteractive(el);\n    const text = (el.innerText || el.textContent || '').trim().replace(/\\s+/g, ' ').slice(0, 140);\n    if (interactiveOnly && !interactive) return;\n    if (compact && !interactive && !text) return;\n\n    const ref = '@e' + (++counter);\n    el.setAttribute('data-zc-ref', ref);\n    nodes.push({\n      ref,\n      depth,\n      tag: el.tagName.toLowerCase(),\n      id: el.id || null,\n      role: el.getAttribute('role'),\n      text,\n      interactive,\n    });\n  };\n\n  const walk = (el, depth) => {\n    if (!(el instanceof Element)) return;\n    if (maxDepth !== null && depth > maxDepth) return;\n    if (isVisible(el)) {\n      describe(el, depth);\n    }\n    for (const child of el.children) {\n      walk(child, depth + 1);\n      if (nodes.length >= 400) return;\n    }\n  };\n\n  if (root) walk(root, 0);\n\n  return {\n    title: document.title,\n    url: window.location.href,\n    count: nodes.length,\n    nodes,\n  };\n})();";

/// An integer as `to_string` writes it.
pub open spec fn int_text(n: int) -> Seq<char> {
    if n < 0 { "-"@ + decimal((-n) as nat) } else { decimal(n as nat) }
}

fn i64_string(n: i64) -> (r: String)
    ensures
        r@ == int_text(n as int),
{
    if n < 0 {
        let magnitude: u64 = if n == i64::MIN { 9223372036854775808u64 } else { (-n) as u64 };
        let mut s = owned("-");
        let digits = decimal_string(magnitude);
        s.append(digits.as_str());
        s
    } else {
        decimal_string(n as u64)
    }
}

/// The page snapshot script for the given options; no depth limit is `null`.
pub open spec fn snapshot_script_text(interactive_only: bool, compact: bool, depth: Option<i64>) -> Seq<char> {
    SNAPSHOT_SCRIPT_HEAD@ + bool_text(interactive_only) + SNAPSHOT_SCRIPT_AFTER_INTERACTIVE@
        + bool_text(compact) + SNAPSHOT_SCRIPT_AFTER_COMPACT@
        + (match depth { Some(d) => int_text(d as int), None => "null"@ })
        + SNAPSHOT_SCRIPT_TAIL@
}

/// The script that walks the page and numbers its visible elements.
pub fn snapshot_script(interactive_only: bool, compact: bool, depth: Option<i64>) -> (r: String)
    ensures
        r@ == snapshot_script_text(interactive_only, compact, depth),
{
    let depth_literal = match depth {
        Some(d) => i64_string(d),
        None => owned("null"),
    };
    let mut s = owned(SNAPSHOT_SCRIPT_HEAD);
    let io = bool_string(interactive_only);
    s.append(io.as_str());
    s.append(SNAPSHOT_SCRIPT_AFTER_INTERACTIVE);
    let c = bool_string(compact);
    s.append(c.as_str());
    s.append(SNAPSHOT_SCRIPT_AFTER_COMPACT);
    s.append(depth_literal.as_str());
    s.append(SNAPSHOT_SCRIPT_TAIL);
    s
}

} // verus!
