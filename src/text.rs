//! String and string-list building blocks shared across the library.
use vstd::prelude::*;

verus! {

/// The parts joined with `sep` between each neighbouring pair.
pub open spec fn join_with(parts: Seq<Seq<char>>, sep: Seq<char>) -> Seq<char>
    decreases parts.len(),
{
    if parts.len() == 0 {
        Seq::empty()
    } else if parts.len() == 1 {
        parts[0]
    } else {
        join_with(parts.drop_last(), sep) + sep + parts.last()
    }
}

/// The character views of a vector of strings.
pub open spec fn views(v: Seq<String>) -> Seq<Seq<char>> {
    v.map_values(|s: String| s@)
}

/// Relies on `String::push`: appends one character.
#[verifier::external_body]
pub(crate) fn push_char(s: &mut String, c: char)
    ensures
        final(s)@ == old(s)@.push(c),
{
    s.push(c)
}

/// Copies a string slice into an owned `String`.
pub fn owned(s: &str) -> (r: String)
    ensures
        r@ == s@,
{
    String::from_str(s)
}

/// Joins the parts with `sep`, as `[T]::join` does.
pub fn join_strings(parts: &[String], sep: &str) -> (r: String)
    ensures
        r@ == join_with(views(parts@), sep@),
{
    let mut out = String::new();
    let mut i: usize = 0;
    while i < parts.len()
        invariant
            i <= parts@.len(),
            out@ == join_with(views(parts@).take(i as int), sep@),
        decreases parts@.len() - i,
    {
        let ghost before = out@;
        if i > 0 {
            out.append(sep);
        }
        out.append(parts[i].as_str());
        proof {
            let t = views(parts@).take(i + 1);
            assert(t.drop_last() =~= views(parts@).take(i as int));
            assert(t.last() == parts@[i as int]@);
            if i == 0 {
                assert(before =~= Seq::<char>::empty());
                assert(out@ =~= join_with(t, sep@));
            } else {
                assert(out@ =~= before + sep@ + parts@[i as int]@);
            }
        }
        i = i + 1;
    }
    assert(views(parts@).take(parts@.len() as int) =~= views(parts@));
    out
}

/// Character equality of two string slices.
pub fn str_eq(a: &str, b: &str) -> (r: bool)
    ensures
        r == (a@ == b@),
{
    let n = a.unicode_len();
    if n != b.unicode_len() {
        return false;
    }
    let mut i: usize = 0;
    while i < n
        invariant
            n == a@.len(),
            n == b@.len(),
            i <= n,
            a@.subrange(0, i as int) == b@.subrange(0, i as int),
        decreases n - i,
    {
        if a.get_char(i) != b.get_char(i) {
            assert(a@[i as int] != b@[i as int]);
            return false;
        }
        assert(a@.subrange(0, i + 1) =~= a@.subrange(0, i as int).push(a@[i as int]));
        assert(b@.subrange(0, i + 1) =~= b@.subrange(0, i as int).push(b@[i as int]));
        i = i + 1;
    }
    assert(a@ =~= a@.subrange(0, n as int));
    assert(b@ =~= b@.subrange(0, n as int));
    true
}

pub open spec fn has_prefix(s: Seq<char>, p: Seq<char>) -> bool {
    p.len() <= s.len() && s.subrange(0, p.len() as int) == p
}

pub open spec fn has_suffix(s: Seq<char>, p: Seq<char>) -> bool {
    p.len() <= s.len() && s.subrange(s.len() - p.len(), s.len() as int) == p
}

/// Whether `s` begins with `p`.
pub fn starts_with(s: &str, p: &str) -> (r: bool)
    ensures
        r == has_prefix(s@, p@),
{
    let n = s.unicode_len();
    let m = p.unicode_len();
    if m > n {
        return false;
    }
    let head = s.substring_char(0, m);
    str_eq(head, p)
}

/// Whether `s` ends with `p`.
pub fn ends_with(s: &str, p: &str) -> (r: bool)
    ensures
        r == has_suffix(s@, p@),
{
    let n = s.unicode_len();
    let m = p.unicode_len();
    if m > n {
        return false;
    }
    let tail = s.substring_char(n - m, n);
    str_eq(tail, p)
}

/// The position of the first occurrence of `c` in `s`, if any.
pub fn find_char(s: &str, c: char) -> (r: Option<usize>)
    ensures
        r matches Some(i) ==> i < s@.len() && s@[i as int] == c && !s@.subrange(0, i as int).contains(c),
        r is None ==> !s@.contains(c),
{
    let n = s.unicode_len();
    let mut i: usize = 0;
    while i < n
        invariant
            n == s@.len(),
            i <= n,
            !s@.subrange(0, i as int).contains(c),
        decreases n - i,
    {
        if s.get_char(i) == c {
            return Some(i);
        }
        assert(s@.subrange(0, i + 1) =~= s@.subrange(0, i as int).push(s@[i as int]));
        i = i + 1;
    }
    assert(s@ =~= s@.subrange(0, n as int));
    None
}

/// Whether `c` occurs in `s`.
pub fn contains_char(s: &str, c: char) -> (r: bool)
    ensures
        r == s@.contains(c),
{
    match find_char(s, c) {
        Some(i) => {
            assert(s@[i as int] == c);
            true
        },
        None => false,
    }
}

/// Whether some element of `v` equals `s`.
pub fn contains_str(v: &[String], s: &str) -> (r: bool)
    ensures
        r == views(v@).contains(s@),
{
    let mut i: usize = 0;
    while i < v.len()
        invariant
            i <= v@.len(),
            forall|j: int| 0 <= j < i ==> v@[j]@ != s@,
        decreases v@.len() - i,
    {
        if str_eq(v[i].as_str(), s) {
            assert(views(v@)[i as int] == s@);
            return true;
        }
        i = i + 1;
    }
    proof {
        if views(v@).contains(s@) {
            let k = choose|k: int| 0 <= k < views(v@).len() && views(v@)[k] == s@;
            assert(v@[k]@ == s@);
        }
    }
    false
}

/// After a push, the sequence holds exactly what it held before and the new element.
pub proof fn lemma_push_contains<A>(s: Seq<A>, x: A, y: A)
    ensures
        s.push(x).contains(y) <==> (s.contains(y) || y == x),
{
    if s.contains(y) {
        let k = choose|k: int| 0 <= k < s.len() && #[trigger] s[k] == y;
        assert(s.push(x)[k] == y);
    }
    if y == x {
        assert(s.push(x)[s.len() as int] == y);
    }
    if s.push(x).contains(y) {
        let k = choose|k: int| 0 <= k < s.push(x).len() && #[trigger] s.push(x)[k] == y;
        if k < s.len() {
            assert(s[k] == y);
        }
    }
}

pub open spec fn digit_char(d: nat) -> char {
    if d == 0 { '0' } else if d == 1 { '1' } else if d == 2 { '2' } else if d == 3 { '3' }
    else if d == 4 { '4' } else if d == 5 { '5' } else if d == 6 { '6' } else if d == 7 { '7' }
    else if d == 8 { '8' } else { '9' }
}

/// The decimal digits of `n`, without leading zeros.
pub open spec fn decimal(n: nat) -> Seq<char>
    decreases n,
{
    if n < 10 {
        seq![digit_char(n)]
    } else {
        decimal(n / 10).push(digit_char(n % 10))
    }
}

fn digit(d: u64) -> (c: char)
    requires
        d < 10,
    ensures
        c == digit_char(d as nat),
{
    if d == 0 { '0' } else if d == 1 { '1' } else if d == 2 { '2' } else if d == 3 { '3' }
    else if d == 4 { '4' } else if d == 5 { '5' } else if d == 6 { '6' } else if d == 7 { '7' }
    else if d == 8 { '8' } else { '9' }
}

/// `n` in decimal, as `to_string` writes it.
pub fn decimal_string(n: u64) -> (r: String)
    ensures
        r@ == decimal(n as nat),
    decreases n,
{
    if n < 10 {
        let mut s = String::new();
        push_char(&mut s, digit(n));
        assert(s@ =~= decimal(n as nat));
        s
    } else {
        let mut s = decimal_string(n / 10);
        push_char(&mut s, digit(n % 10));
        s
    }
}

pub open spec fn bool_text(b: bool) -> Seq<char> {
    if b { "true"@ } else { "false"@ }
}

/// `b` as `to_string` writes it.
pub fn bool_string(b: bool) -> (r: String)
    ensures
        r@ == bool_text(b),
{
    if b { owned("true") } else { owned("false") }
}

/// The Unicode `White_Space` characters, which `char::is_whitespace` accepts.
pub open spec fn white_space(c: char) -> bool {
    ('\u{9}' <= c && c <= '\u{d}') || c == ' ' || c == '\u{85}' || c == '\u{a0}' || c == '\u{1680}'
        || ('\u{2000}' <= c && c <= '\u{200a}') || c == '\u{2028}' || c == '\u{2029}'
        || c == '\u{202f}' || c == '\u{205f}' || c == '\u{3000}'
}

/// What `str::to_lowercase` returns for a string.
pub uninterp spec fn lower_of(s: Seq<char>) -> Seq<char>;

/// Whether `c` is a Unicode `White_Space` character.
pub fn is_white_space(c: char) -> (r: bool)
    ensures
        r == white_space(c),
{
    ('\u{9}' <= c && c <= '\u{d}') || c == ' ' || c == '\u{85}' || c == '\u{a0}' || c == '\u{1680}'
        || ('\u{2000}' <= c && c <= '\u{200a}') || c == '\u{2028}' || c == '\u{2029}'
        || c == '\u{202f}' || c == '\u{205f}' || c == '\u{3000}'
}

/// Relies on `str::to_lowercase`: the result depends on the characters alone,
/// and the empty string stays empty.
#[verifier::external_body]
pub(crate) fn lowercase(s: &str) -> (r: String)
    ensures
        r@ == lower_of(s@),
        s@.len() == 0 ==> r@.len() == 0,
{
    s.to_lowercase()
}

/// The number of whitespace characters that `s` starts with.
pub open spec fn leading_ws(s: Seq<char>) -> nat
    decreases s.len(),
{
    if s.len() == 0 {
        0
    } else if white_space(s[0]) {
        1 + leading_ws(s.drop_first())
    } else {
        0
    }
}

/// The number of whitespace characters that `s` ends with.
pub open spec fn trailing_ws(s: Seq<char>) -> nat
    decreases s.len(),
{
    if s.len() == 0 {
        0
    } else if white_space(s.last()) {
        1 + trailing_ws(s.drop_last())
    } else {
        0
    }
}

/// `s` without its leading and trailing whitespace, as `str::trim` gives it.
pub open spec fn trimmed(s: Seq<char>) -> Seq<char> {
    let t = s.skip(leading_ws(s) as int);
    t.take(t.len() - trailing_ws(t))
}

/// Removes leading and trailing whitespace.
pub fn trim(s: &str) -> (r: &str)
    ensures
        r@ == trimmed(s@),
{
    let n = s.unicode_len();
    let mut a: usize = 0;
    assert(s@.skip(0) =~= s@);
    while a < n && is_white_space(s.get_char(a))
        invariant
            n == s@.len(),
            a <= n,
            leading_ws(s@) == a + leading_ws(s@.skip(a as int)),
            forall|k: int| 0 <= k < a ==> white_space(#[trigger] s@[k]),
        decreases n - a,
    {
        assert(s@.skip(a as int).drop_first() =~= s@.skip(a + 1));
        a = a + 1;
    }
    assert(leading_ws(s@) == a) by {
        if a < n {
            assert(s@.skip(a as int)[0] == s@[a as int]);
        } else {
            assert(s@.skip(a as int).len() == 0);
        }
    }
    let t = s.substring_char(a, n);
    let m = n - a;
    let mut b: usize = m;
    assert(t@.take(m as int) =~= t@);
    while b > 0 && is_white_space(t.get_char(b - 1))
        invariant
            m == t@.len(),
            b <= m,
            trailing_ws(t@) == (m - b) + trailing_ws(t@.take(b as int)),
        decreases b,
    {
        assert(t@.take(b as int).drop_last() =~= t@.take(b - 1));
        b = b - 1;
    }
    assert(trailing_ws(t@) == m - b) by {
        if b > 0 {
            assert(t@.take(b as int).last() == t@[b - 1]);
        } else {
            assert(t@.take(b as int).len() == 0);
        }
    }
    assert(t@ =~= s@.skip(a as int));
    t.substring_char(0, b)
}

/// `c` as `char::to_ascii_lowercase` maps it.
pub open spec fn ascii_lower_char(c: char) -> char {
    if 'A' <= c && c <= 'Z' { (((c as u8) + 32) as u8) as char } else { c }
}

/// `c` replaced by `to` wherever it is `from`.
pub open spec fn swap_char(c: char, from: char, to: char) -> char {
    if c == from { to } else { c }
}

/// `s` with ASCII upper-case letters lowered and `from` replaced by `to`.
pub fn ascii_lower_replacing(s: &str, from: char, to: char) -> (r: String)
    ensures
        r@ == s@.map_values(|c: char| swap_char(ascii_lower_char(c), from, to)),
{
    let n = s.unicode_len();
    let mut out = String::new();
    let mut i: usize = 0;
    while i < n
        invariant
            n == s@.len(),
            i <= n,
            out@ == s@.take(i as int).map_values(|c: char| swap_char(ascii_lower_char(c), from, to)),
        decreases n - i,
    {
        let c = s.get_char(i);
        let lower = if 'A' <= c && c <= 'Z' { ((c as u8) + 32u8) as char } else { c };
        let mapped = if lower == from { to } else { lower };
        push_char(&mut out, mapped);
        assert(s@.take(i + 1) =~= s@.take(i as int).push(c));
        i = i + 1;
        assert(out@ =~= s@.take(i as int).map_values(|c: char| swap_char(ascii_lower_char(c), from, to)));
    }
    assert(s@.take(n as int) =~= s@);
    out
}

/// The part of `s` before the first `c`; all of `s` when `c` does not occur.
pub open spec fn before_char(s: Seq<char>, c: char) -> Seq<char>
    decreases s.len(),
{
    if s.len() == 0 {
        s
    } else if s[0] == c {
        Seq::empty()
    } else {
        seq![s[0]] + before_char(s.drop_first(), c)
    }
}

/// The length of the part of `s` before the first `c`.
pub fn index_of_char(s: &str, c: char) -> (r: usize)
    ensures
        r <= s@.len(),
        s@.take(r as int) == before_char(s@, c),
        r < s@.len() ==> s@[r as int] == c,
{
    let n = s.unicode_len();
    let mut i: usize = 0;
    assert(s@.skip(0) =~= s@);
    assert(s@.take(0) + before_char(s@, c) =~= before_char(s@, c));
    while i < n && s.get_char(i) != c
        invariant
            n == s@.len(),
            i <= n,
            before_char(s@, c) == s@.take(i as int) + before_char(s@.skip(i as int), c),
        decreases n - i,
    {
        assert(s@.skip(i as int).drop_first() =~= s@.skip(i + 1));
        assert(s@.skip(i as int)[0] == s@[i as int]);
        assert(s@.take(i + 1) =~= s@.take(i as int) + seq![s@[i as int]]);
        assert(s@.take(i as int) + (seq![s@[i as int]] + before_char(s@.skip(i + 1), c))
            =~= s@.take(i + 1) + before_char(s@.skip(i + 1), c));
        i = i + 1;
    }
    if i < n {
        assert(s@.skip(i as int)[0] == s@[i as int]);
    } else {
        assert(s@.skip(i as int).len() == 0);
    }
    assert(s@.take(i as int) + Seq::<char>::empty() =~= s@.take(i as int));
    i
}

pub open spec fn set_of(v: Seq<String>) -> Set<Seq<char>> {
    Set::new(|s: Seq<char>| views(v).contains(s))
}

pub open spec fn no_duplicates(v: Seq<String>) -> bool {
    forall|i: int, j: int| 0 <= i < j < v.len() ==> v[i]@ != v[j]@
}

/// `v` followed by each item it does not hold yet, in the items' order.
pub open spec fn appended_new(v: Seq<Seq<char>>, items: Seq<Seq<char>>) -> Seq<Seq<char>>
    decreases items.len(),
{
    if items.len() == 0 {
        v
    } else {
        let w = appended_new(v, items.drop_last());
        if w.contains(items.last()) { w } else { w.push(items.last()) }
    }
}

/// `v` without the elements that `items` holds, in `v`'s order.
pub open spec fn without(v: Seq<Seq<char>>, items: Seq<Seq<char>>) -> Seq<Seq<char>>
    decreases v.len(),
{
    if v.len() == 0 {
        v
    } else {
        let w = without(v.drop_last(), items);
        if items.contains(v.last()) { w } else { w.push(v.last()) }
    }
}

/// Appends each item that `v` does not hold yet.
pub fn add_unique(v: &mut Vec<String>, items: &[String])
    requires
        no_duplicates(old(v)@),
    ensures
        no_duplicates(final(v)@),
        set_of(final(v)@) == set_of(old(v)@).union(set_of(items@)),
        views(final(v)@) == appended_new(views(old(v)@), views(items@)),
{
    let ghost start = v@;
    let mut i: usize = 0;
    while i < items.len()
        invariant
            i <= items@.len(),
            no_duplicates(v@),
            forall|s: Seq<char>| views(v@).contains(s) <==> (views(start).contains(s)
                || views(items@.subrange(0, i as int)).contains(s)),
            views(v@) == appended_new(views(start), views(items@.subrange(0, i as int))),
        decreases items@.len() - i,
    {
        let ghost prev = v@;
        let ghost x = items@[i as int]@;
        let ghost before = views(items@.subrange(0, i as int));
        assert(forall|s: Seq<char>| #[trigger] views(prev).contains(s) <==> (views(start).contains(s) || before.contains(s)));
        let found = contains_str(v.as_slice(), items[i].as_str());
        if !found {
            proof {
                assert forall|a: int| 0 <= a < prev.len() implies prev[a]@ != x by {
                    assert(views(prev)[a] == prev[a]@);
                }
            }
            v.push(items[i].clone());
            assert(views(v@) =~= views(prev).push(x));
        }
        i = i + 1;
        proof {
            assert(views(items@.subrange(0, i as int)) =~= before.push(x));
            assert(views(items@.subrange(0, i as int)).drop_last() =~= before);
            assert forall|s: Seq<char>| views(v@).contains(s) <==> (views(start).contains(s)
                || views(items@.subrange(0, i as int)).contains(s)) by {
                assert(views(prev).contains(s) <==> (views(start).contains(s) || before.contains(s)));
                lemma_push_contains(before, x, s);
                if !found {
                    lemma_push_contains(views(prev), x, s);
                }
            }
        }
    }
    assert(items@.subrange(0, items@.len() as int) =~= items@);
    assert(set_of(v@) =~= set_of(start).union(set_of(items@)));
}

/// Drops every element of `v` that `items` holds, keeping the order of the rest.
pub fn remove_all(v: &mut Vec<String>, items: &[String])
    requires
        no_duplicates(old(v)@),
    ensures
        no_duplicates(final(v)@),
        set_of(final(v)@) == set_of(old(v)@).difference(set_of(items@)),
        views(final(v)@) == without(views(old(v)@), views(items@)),
{
    let mut kept: Vec<String> = Vec::new();
    let mut i: usize = 0;
    while i < v.len()
        invariant
            i <= v@.len(),
            no_duplicates(v@),
            no_duplicates(kept@),
            forall|s: Seq<char>| views(kept@).contains(s) <==> (views(v@.subrange(0, i as int)).contains(s)
                && !views(items@).contains(s)),
            views(kept@) == without(views(v@.subrange(0, i as int)), views(items@)),
        decreases v@.len() - i,
    {
        let ghost prev = kept@;
        let ghost x = v@[i as int]@;
        let ghost before = views(v@.subrange(0, i as int));
        let found = contains_str(items, v[i].as_str());
        if !found {
            proof {
                assert forall|a: int| 0 <= a < prev.len() implies prev[a]@ != x by {
                    if prev[a]@ == x {
                        assert(views(prev)[a] == x);
                        let k = choose|k: int| 0 <= k < before.len() && #[trigger] before[k] == x;
                        assert(v@[k]@ == x);
                    }
                }
            }
            kept.push(v[i].clone());
            assert(views(kept@) =~= views(prev).push(x));
        }
        proof {
            assert(views(v@.subrange(0, i + 1)) =~= before.push(x));
            assert(views(v@.subrange(0, i + 1)).drop_last() =~= before);
            assert forall|s: Seq<char>| views(kept@).contains(s) <==> (views(v@.subrange(0, i + 1)).contains(s)
                && !views(items@).contains(s)) by {
                assert(views(prev).contains(s) <==> (before.contains(s) && !views(items@).contains(s)));
                lemma_push_contains(before, x, s);
                if !found {
                    lemma_push_contains(views(prev), x, s);
                }
            }
        }
        i = i + 1;
    }
    assert(v@.subrange(0, v@.len() as int) =~= v@);
    assert(set_of(kept@) =~= set_of(v@).difference(set_of(items@)));
    *v = kept;
}

/// Lexicographic order by character value, which is the byte order of the
/// UTF-8 encodings that `str`'s `Ord` uses.
pub open spec fn lex_lt(a: Seq<char>, b: Seq<char>) -> bool
    decreases a.len(),
{
    if a.len() == 0 {
        b.len() > 0
    } else if b.len() == 0 {
        false
    } else if a[0] < b[0] {
        true
    } else if a[0] > b[0] {
        false
    } else {
        lex_lt(a.drop_first(), b.drop_first())
    }
}

pub proof fn lemma_lex_total(a: Seq<char>, b: Seq<char>)
    ensures
        a != b ==> lex_lt(a, b) || lex_lt(b, a),
        !(lex_lt(a, b) && lex_lt(b, a)),
    decreases a.len(),
{
    if a.len() > 0 && b.len() > 0 {
        lemma_lex_total(a.drop_first(), b.drop_first());
        if a[0] == b[0] && a.drop_first() == b.drop_first() {
            assert(a =~= seq![a[0]] + a.drop_first());
            assert(b =~= seq![b[0]] + b.drop_first());
        }
    } else if a.len() == 0 && b.len() == 0 {
        assert(a =~= b);
    }
}

pub proof fn lemma_lex_transitive(a: Seq<char>, b: Seq<char>, c: Seq<char>)
    requires
        lex_lt(a, b),
        lex_lt(b, c),
    ensures
        lex_lt(a, c),
    decreases a.len(),
{
    if a.len() > 0 && b.len() > 0 && c.len() > 0 {
        if a[0] == b[0] && b[0] == c[0] {
            lemma_lex_transitive(a.drop_first(), b.drop_first(), c.drop_first());
        }
    }
}

/// Whether `a` orders before `b`.
pub fn str_lt(a: &str, b: &str) -> (r: bool)
    ensures
        r == lex_lt(a@, b@),
{
    let n = a.unicode_len();
    let m = b.unicode_len();
    let mut i: usize = 0;
    assert(a@.skip(0) =~= a@);
    assert(b@.skip(0) =~= b@);
    while i < n && i < m
        invariant
            n == a@.len(),
            m == b@.len(),
            i <= n,
            i <= m,
            lex_lt(a@, b@) == lex_lt(a@.skip(i as int), b@.skip(i as int)),
        decreases n - i,
    {
        let x = a.get_char(i);
        let y = b.get_char(i);
        assert(a@.skip(i as int)[0] == x);
        assert(b@.skip(i as int)[0] == y);
        if x < y {
            return true;
        }
        if x > y {
            return false;
        }
        assert(a@.skip(i as int).drop_first() =~= a@.skip(i + 1));
        assert(b@.skip(i as int).drop_first() =~= b@.skip(i + 1));
        i = i + 1;
    }
    assert(a@.skip(i as int).len() == n - i);
    assert(b@.skip(i as int).len() == m - i);
    i == n && i < m
}

pub open spec fn strictly_sorted(v: Seq<Seq<char>>) -> bool {
    forall|i: int, j: int| 0 <= i < j < v.len() ==> lex_lt(#[trigger] v[i], #[trigger] v[j])
}

/// Puts `s` into a strictly ascending list, unless it is there already.
pub fn insert_sorted(v: &mut Vec<String>, s: String)
    requires
        strictly_sorted(views(old(v)@)),
    ensures
        strictly_sorted(views(final(v)@)),
        set_of(final(v)@) == set_of(old(v)@).insert(s@),
{
    let ghost old_v = views(v@);
    let mut p: usize = 0;
    while p < v.len() && str_lt(v[p].as_str(), s.as_str())
        invariant
            p <= v@.len(),
            views(v@) == old_v,
            forall|k: int| 0 <= k < p ==> lex_lt(#[trigger] old_v[k], s@),
        decreases v@.len() - p,
    {
        assert(old_v[p as int] == v@[p as int]@);
        p = p + 1;
    }
    if p < v.len() && str_eq(v[p].as_str(), s.as_str()) {
        proof {
            assert(old_v[p as int] == s@);
            assert(set_of(v@) =~= set_of(v@).insert(s@)) by {
                assert(views(v@)[p as int] == s@);
            }
        }
        return;
    }
    proof {
        if p < v@.len() {
            assert(old_v[p as int] == v@[p as int]@);
            lemma_lex_total(old_v[p as int], s@);
            assert forall|k: int| p <= k < old_v.len() implies lex_lt(s@, #[trigger] old_v[k]) by {
                if k > p {
                    lemma_lex_transitive(s@, old_v[p as int], old_v[k]);
                }
            }
        }
    }
    v.insert(p, s);
    proof {
        let nv = views(v@);
        assert(nv =~= old_v.insert(p as int, s@));
        assert forall|i: int, j: int| 0 <= i < j < nv.len() implies lex_lt(#[trigger] nv[i], #[trigger] nv[j]) by {
            if i < p && j > p {
                lemma_lex_transitive(old_v[i], s@, old_v[j - 1]);
            }
        }
        assert forall|x: Seq<char>| #[trigger] set_of(v@).contains(x) == set_of(old(v)@).insert(s@).contains(x) by {
            if nv.contains(x) {
                let k = choose|k: int| 0 <= k < nv.len() && nv[k] == x;
                if k < p { assert(old_v[k] == x); }
                if k > p { assert(old_v[k - 1] == x); }
            }
            if old_v.contains(x) {
                let k = choose|k: int| 0 <= k < old_v.len() && old_v[k] == x;
                if k < p { assert(nv[k] == x); } else { assert(nv[k + 1] == x); }
            }
            if x == s@ {
                assert(nv[p as int] == x);
            }
        }
        assert(set_of(v@) =~= set_of(old(v)@).insert(s@));
    }
}

/// Whether `p` occurs in `s` as a contiguous run.
pub open spec fn has_infix(s: Seq<char>, p: Seq<char>) -> bool {
    exists|i: int| 0 <= i <= s.len() - p.len() && #[trigger] s.subrange(i, i + p.len()) == p
}

/// Whether `p` occurs in `s`.
pub fn contains_str_in(s: &str, p: &str) -> (r: bool)
    ensures
        r == has_infix(s@, p@),
{
    let n = s.unicode_len();
    let m = p.unicode_len();
    if m > n {
        return false;
    }
    let mut i: usize = 0;
    loop
        invariant
            n == s@.len(),
            m == p@.len(),
            m <= n,
            i <= n - m,
            forall|k: int| 0 <= k < i ==> #[trigger] s@.subrange(k, k + m) != p@,
        decreases n - m - i,
    {
        let window = s.substring_char(i, i + m);
        if str_eq(window, p) {
            return true;
        }
        if i == n - m {
            return false;
        }
        i = i + 1;
    }
}

} // verus!
