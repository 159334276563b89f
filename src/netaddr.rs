//! Recognises loopback, private, link-local and other local addresses in a
//! host name, in the textual IPv4 and IPv6 forms that `IpAddr` parsing accepts.
use vstd::prelude::*;
use crate::text::{before_char, has_prefix, index_of_char, starts_with, str_eq};

verus! {

/// `s` cut at each `c`.
pub open spec fn split_on(s: Seq<char>, c: char) -> Seq<Seq<char>>
    decreases s.len(),
{
    let b = before_char(s, c);
    if b.len() >= s.len() {
        seq![s]
    } else {
        seq![b] + split_on(s.skip(b.len() + 1int), c)
    }
}

pub open spec fn is_digit(c: char) -> bool {
    '0' <= c && c <= '9'
}

pub open spec fn hex_value(c: char) -> Option<nat> {
    if '0' <= c && c <= '9' {
        Some(((c as u32) - 48) as nat)
    } else if 'a' <= c && c <= 'f' {
        Some(((c as u32) - 87) as nat)
    } else if 'A' <= c && c <= 'F' {
        Some(((c as u32) - 55) as nat)
    } else {
        None
    }
}

/// The value of a string of digits in `radix` (10 or 16), if all are digits.
pub open spec fn digits_value(p: Seq<char>, radix: nat) -> Option<nat>
    decreases p.len(),
{
    if p.len() == 0 {
        Some(0)
    } else {
        match (digits_value(p.drop_last(), radix), hex_value(p.last())) {
            (Some(v), Some(d)) => if d < radix { Some(v * radix + d) } else { None },
            _ => None,
        }
    }
}

/// One part of a dotted IPv4 address: one to three decimal digits, no
/// leading zero, at most 255.
pub open spec fn octet_of(p: Seq<char>) -> Option<nat> {
    if 1 <= p.len() <= 3 && (p.len() > 1 ==> p[0] != '0') {
        match digits_value(p, 10) {
            Some(v) => if v <= 255 { Some(v) } else { None },
            None => None,
        }
    } else {
        None
    }
}

/// The four octets of a dotted IPv4 address.
pub open spec fn ipv4_of(s: Seq<char>) -> Option<Seq<nat>> {
    let parts = split_on(s, '.');
    if parts.len() == 4 && octet_of(parts[0]) is Some && octet_of(parts[1]) is Some
        && octet_of(parts[2]) is Some && octet_of(parts[3]) is Some {
        Some(seq![octet_of(parts[0])->0, octet_of(parts[1])->0, octet_of(parts[2])->0, octet_of(parts[3])->0])
    } else {
        None
    }
}

/// One group of an IPv6 address: one to four hexadecimal digits.
pub open spec fn hex_group_of(p: Seq<char>) -> Option<nat> {
    if 1 <= p.len() <= 4 { digits_value(p, 16) } else { None }
}

/// The 16-bit groups that colon-separated parts stand for; the last part may
/// be a dotted IPv4 address, which stands for two groups.
pub open spec fn groups_of(parts: Seq<Seq<char>>, ipv4_last: bool) -> Option<Seq<nat>>
    decreases parts.len(),
{
    if parts.len() == 0 {
        Some(Seq::empty())
    } else if ipv4_last && ipv4_of(parts.last()) is Some {
        match groups_of(parts.drop_last(), false) {
            Some(g) => {
                let o = ipv4_of(parts.last())->0;
                Some(g + seq![o[0] * 256 + o[1], o[2] * 256 + o[3]])
            },
            None => None,
        }
    } else {
        match (groups_of(parts.drop_last(), false), hex_group_of(parts.last())) {
            (Some(g), Some(v)) => Some(g.push(v)),
            _ => None,
        }
    }
}

/// Where `::` first occurs in `s`.
pub open spec fn double_colon_at(s: Seq<char>) -> Option<nat>
    decreases s.len(),
{
    if s.len() < 2 {
        None
    } else if s[0] == ':' && s[1] == ':' {
        Some(0)
    } else {
        match double_colon_at(s.drop_first()) {
            Some(i) => Some(i + 1),
            None => None,
        }
    }
}

/// The groups of a side of `::`; an empty side has none.
pub open spec fn side_groups(s: Seq<char>, ipv4_last: bool) -> Option<Seq<nat>> {
    if s.len() == 0 { Some(Seq::empty()) } else { groups_of(split_on(s, ':'), ipv4_last) }
}

/// The eight groups of a textual IPv6 address: eight groups, or fewer with a
/// single `::` standing for at least one group of zeros.
pub open spec fn ipv6_of(s: Seq<char>) -> Option<Seq<nat>> {
    match double_colon_at(s) {
        None => match groups_of(split_on(s, ':'), true) {
            Some(g) => if g.len() == 8 { Some(g) } else { None },
            None => None,
        },
        Some(i) => {
            let left = s.take(i as int);
            let right = s.skip(i + 2int);
            if double_colon_at(right) is Some {
                None
            } else {
                match (side_groups(left, false), side_groups(right, true)) {
                    (Some(l), Some(r)) => if l.len() + r.len() <= 7 {
                        Some(l + Seq::new((8 - l.len() - r.len()) as nat, |k: int| 0nat) + r)
                    } else {
                        None
                    },
                    _ => None,
                }
            }
        },
    }
}

/// Loopback, private, link-local, unspecified or broadcast IPv4 octets.
pub open spec fn local_ipv4(o: Seq<nat>) -> bool {
    o[0] == 127
    || o[0] == 10
    || (o[0] == 172 && 16 <= o[1] <= 31)
    || (o[0] == 192 && o[1] == 168)
    || (o[0] == 169 && o[1] == 254)
    || (o[0] == 0 && o[1] == 0 && o[2] == 0 && o[3] == 0)
    || (o[0] == 255 && o[1] == 255 && o[2] == 255 && o[3] == 255)
}

/// Loopback, unspecified, unique-local (fc00::/7), link-local (fe80::/10),
/// or an IPv4-mapped address of a local IPv4 address.
pub open spec fn local_ipv6(g: Seq<nat>) -> bool {
    let zero_head = g[0] == 0 && g[1] == 0 && g[2] == 0 && g[3] == 0 && g[4] == 0;
    (zero_head && g[5] == 0 && g[6] == 0 && (g[7] == 0 || g[7] == 1))
    || (0xfc00 <= g[0] <= 0xfdff)
    || (0xfe80 <= g[0] <= 0xfebf)
    || (zero_head && g[5] == 0xffff
        && local_ipv4(seq![g[6] / 256, g[6] % 256, g[7] / 256, g[7] % 256]))
}

/// Host names that merely begin like a local IPv4 address.
pub open spec fn local_prefix(s: Seq<char>) -> bool {
    has_prefix(s, "127."@) || has_prefix(s, "10."@) || has_prefix(s, "192.168."@)
    || has_prefix(s, "0.0.0.0"@)
    || (has_prefix(s, "172."@) && s.len() >= 7 && s[6] == '.' && (
        (s[4] == '1' && '6' <= s[5] && s[5] <= '9')
        || (s[4] == '2' && is_digit(s[5]))
        || (s[4] == '3' && (s[5] == '0' || s[5] == '1'))))
}

/// The host without the brackets of an IPv6 literal.
pub open spec fn unbracketed(host: Seq<char>) -> Seq<char> {
    if host.len() >= 2 && host[0] == '[' && host.last() == ']' {
        host.subrange(1, host.len() - 1)
    } else {
        host
    }
}

/// Whether a host is local or private and must not be browsed.
pub open spec fn private_host(host: Seq<char>) -> bool {
    let bare = unbracketed(host);
    if bare == "localhost"@ {
        true
    } else if ipv4_of(bare) is Some {
        local_ipv4(ipv4_of(bare)->0)
    } else if ipv6_of(bare) is Some {
        local_ipv6(ipv6_of(bare)->0)
    } else {
        local_prefix(bare)
    }
}

/// Cuts `s` at each `c`.
pub fn split_str(s: &str, c: char) -> (r: Vec<String>)
    ensures
        crate::text::views(r@) == split_on(s@, c),
{
    let mut parts: Vec<String> = Vec::new();
    let mut rest: &str = s;
    loop
        invariant
            split_on(s@, c) == crate::text::views(parts@) + split_on(rest@, c),
        decreases rest@.len(),
    {
        let n = rest.unicode_len();
        let b = index_of_char(rest, c);
        let ghost prev = parts@;
        if b >= n {
            assert(before_char(rest@, c) == rest@) by {
                assert(rest@.take(b as int) =~= rest@);
            }
            parts.push(crate::text::owned(rest));
            assert(crate::text::views(parts@) =~= crate::text::views(prev) + seq![rest@]);
            assert(crate::text::views(prev) + split_on(rest@, c) =~= crate::text::views(parts@));
            return parts;
        }
        let head = rest.substring_char(0, b);
        let tail = rest.substring_char(b + 1, n);
        assert(tail@ =~= rest@.skip(b + 1));
        parts.push(crate::text::owned(head));
        assert(crate::text::views(parts@) =~= crate::text::views(prev).push(head@));
        assert(crate::text::views(prev) + split_on(rest@, c)
            =~= crate::text::views(parts@) + split_on(tail@, c));
        rest = tail;
    }
}

fn hex_digit(c: char) -> (r: Option<u64>)
    ensures
        r matches Some(v) ==> hex_value(c) == Some(v as nat),
        r is None ==> hex_value(c) is None,
{
    if '0' <= c && c <= '9' {
        Some(((c as u32) - 48) as u64)
    } else if 'a' <= c && c <= 'f' {
        Some(((c as u32) - 87) as u64)
    } else if 'A' <= c && c <= 'F' {
        Some(((c as u32) - 55) as u64)
    } else {
        None
    }
}

proof fn lemma_digits_prefix_none(p: Seq<char>, k: int, radix: nat)
    requires
        0 <= k <= p.len(),
        digits_value(p.take(k), radix) is None,
    ensures
        digits_value(p, radix) is None,
    decreases p.len() - k,
{
    if k < p.len() {
        let t = p.take(k + 1);
        assert(t.drop_last() =~= p.take(k));
        lemma_digits_prefix_none(p, k + 1, radix);
    } else {
        assert(p.take(k) =~= p);
    }
}

/// The value of up to four digits in base 10 or 16.
fn digits_value_exec(p: &str, hex: bool) -> (r: Option<u64>)
    requires
        p@.len() <= 4,
    ensures
        r matches Some(v) ==> digits_value(p@, if hex { 16nat } else { 10nat }) == Some(v as nat),
        r is None ==> digits_value(p@, if hex { 16nat } else { 10nat }) is None,
        r matches Some(v) ==> v < 65536,
{
    let ghost radix: nat = if hex { 16nat } else { 10nat };
    let n = p.unicode_len();
    let mut v: u64 = 0;
    let mut i: usize = 0;
    assert(p@.take(0) =~= Seq::<char>::empty());
    while i < n
        invariant
            n == p@.len(),
            n <= 4,
            i <= n,
            digits_value(p@.take(i as int), radix) == Some(v as nat),
            radix == (if hex { 16nat } else { 10nat }),
            v < 65536,
            i == 0 ==> v == 0,
            i <= 1 ==> v < 16,
            i <= 2 ==> v < 256,
            i <= 3 ==> v < 4096,
        decreases n - i,
    {
        let c = p.get_char(i);
        assert(p@.take(i + 1).drop_last() =~= p@.take(i as int));
        assert(p@.take(i + 1).last() == c);
        match hex_digit(c) {
            Some(d) => {
                if hex {
                    assert(radix == 16);
                    if d >= 16 {
                        proof { lemma_digits_prefix_none(p@, i + 1, radix); }
                        return None;
                    }
                    assert(digits_value(p@.take(i + 1), radix) == Some((v as nat) * 16 + (d as nat)));
                    v = v * 16 + d;
                } else {
                    assert(radix == 10);
                    if d >= 10 {
                        proof { lemma_digits_prefix_none(p@, i + 1, radix); }
                        return None;
                    }
                    assert(digits_value(p@.take(i + 1), radix) == Some((v as nat) * 10 + (d as nat)));
                    v = v * 10 + d;
                }
            },
            None => {
                proof { lemma_digits_prefix_none(p@, i + 1, radix); }
                return None;
            },
        }
        i = i + 1;
    }
    assert(p@.take(n as int) =~= p@);
    Some(v)
}

fn octet_exec(p: &str) -> (r: Option<u64>)
    ensures
        r matches Some(v) ==> octet_of(p@) == Some(v as nat),
        r is None ==> octet_of(p@) is None,
{
    let n = p.unicode_len();
    if n < 1 || n > 3 {
        return None;
    }
    if n > 1 && p.get_char(0) == '0' {
        return None;
    }
    match digits_value_exec(p, false) {
        Some(v) => if v <= 255 { Some(v) } else { None },
        None => None,
    }
}

/// The octets of a dotted IPv4 address.
pub fn ipv4_exec(s: &str) -> (r: Option<Vec<u64>>)
    ensures
        r matches Some(o) ==> ipv4_of(s@) == Some(o@.map_values(|x: u64| x as nat)) && o@.len() == 4,
        r is None ==> ipv4_of(s@) is None,
{
    let parts = split_str(s, '.');
    if parts.len() != 4 {
        return None;
    }
    proof {
        assert(crate::text::views(parts@)[0] == parts@[0]@);
        assert(crate::text::views(parts@)[1] == parts@[1]@);
        assert(crate::text::views(parts@)[2] == parts@[2]@);
        assert(crate::text::views(parts@)[3] == parts@[3]@);
    }
    let a = octet_exec(parts[0].as_str());
    let b = octet_exec(parts[1].as_str());
    let c = octet_exec(parts[2].as_str());
    let d = octet_exec(parts[3].as_str());
    match (a, b, c, d) {
        (Some(a), Some(b), Some(c), Some(d)) => {
            let o = vec![a, b, c, d];
            assert(o@.map_values(|x: u64| x as nat) =~= seq![a as nat, b as nat, c as nat, d as nat]);
            Some(o)
        },
        _ => None,
    }
}

fn hex_group_exec(p: &str) -> (r: Option<u64>)
    ensures
        r matches Some(v) ==> hex_group_of(p@) == Some(v as nat) && v < 65536,
        r is None ==> hex_group_of(p@) is None,
{
    let n = p.unicode_len();
    if n < 1 || n > 4 {
        return None;
    }
    digits_value_exec(p, true)
}

proof fn lemma_groups_prefix_none(parts: Seq<Seq<char>>, k: int, ipv4_last: bool)
    requires
        0 <= k < parts.len(),
        groups_of(parts.take(k), false) is None,
    ensures
        groups_of(parts, ipv4_last) is None,
    decreases parts.len() - k,
{
    if k + 1 < parts.len() {
        let t = parts.take(k + 1);
        assert(t.drop_last() =~= parts.take(k));
        lemma_groups_prefix_none(parts, k + 1, ipv4_last);
    } else {
        assert(parts.drop_last() =~= parts.take(k));
    }
}

pub open spec fn nats(v: Seq<u64>) -> Seq<nat> {
    v.map_values(|x: u64| x as nat)
}

/// The groups that the parts stand for.
fn groups_exec(parts: &[String], ipv4_last: bool) -> (r: Option<Vec<u64>>)
    requires
        parts@.len() <= 16,
    ensures
        r matches Some(g) ==> groups_of(crate::text::views(parts@), ipv4_last) == Some(nats(g@)),
        r is None ==> groups_of(crate::text::views(parts@), ipv4_last) is None,
{
    let ghost ps = crate::text::views(parts@);
    let n = parts.len();
    if n == 0 {
        return Some(Vec::new());
    }
    let mut g: Vec<u64> = Vec::new();
    let mut i: usize = 0;
    assert(ps.take(0) =~= Seq::<Seq<char>>::empty());
    while i + 1 < n
        invariant
            n == parts@.len(),
            n >= 1,
            ps == crate::text::views(parts@),
            i + 1 <= n,
            groups_of(ps.take(i as int), false) == Some(nats(g@)),
        decreases n - i,
    {
        let ghost t = ps.take(i + 1);
        assert(t.drop_last() =~= ps.take(i as int));
        assert(t.last() == parts@[i as int]@);
        match hex_group_exec(parts[i].as_str()) {
            Some(v) => {
                g.push(v);
                assert(nats(g@) =~= groups_of(ps.take(i as int), false)->0.push(v as nat));
            },
            None => {
                proof {
                    if i + 1 < n {
                        lemma_groups_prefix_none(ps, i + 1, ipv4_last);
                    } else {
                        assert(ps.take(i + 1) =~= ps);
                    }
                }
                return None;
            },
        }
        i = i + 1;
    }
    let ghost head = ps.take(i as int);
    assert(ps.drop_last() =~= head);
    assert(ps.last() == parts@[i as int]@);
    let last = parts[i].as_str();
    if ipv4_last {
        match ipv4_exec(last) {
            Some(o) => {
                let hi = o[0] * 256 + o[1];
                let lo = o[2] * 256 + o[3];
                g.push(hi);
                g.push(lo);
                assert(nats(g@) =~= groups_of(head, false)->0 + seq![(o@[0] as nat) * 256 + (o@[1] as nat), (o@[2] as nat) * 256 + (o@[3] as nat)]);
                return Some(g);
            },
            None => {},
        }
    }
    match hex_group_exec(last) {
        Some(v) => {
            g.push(v);
            assert(nats(g@) =~= groups_of(head, false)->0.push(v as nat));
            Some(g)
        },
        None => None,
    }
}

pub open spec fn shifted(o: Option<nat>, by: nat) -> Option<nat> {
    match o {
        Some(k) => Some(k + by),
        None => None,
    }
}

fn double_colon_exec(s: &str) -> (r: Option<usize>)
    ensures
        r matches Some(k) ==> double_colon_at(s@) == Some(k as nat) && k + 2 <= s@.len(),
        r is None ==> double_colon_at(s@) is None,
{
    let n = s.unicode_len();
    let mut i: usize = 0;
    assert(s@.skip(0) =~= s@);
    while i < n && i + 1 < n
        invariant
            n == s@.len(),
            i <= n,
            double_colon_at(s@) == shifted(double_colon_at(s@.skip(i as int)), i as nat),
        decreases n - i,
    {
        let ghost t = s@.skip(i as int);
        assert(t[0] == s@[i as int] && t[1] == s@[i + 1]);
        if s.get_char(i) == ':' && s.get_char(i + 1) == ':' {
            return Some(i);
        }
        assert(t.drop_first() =~= s@.skip(i + 1));
        i = i + 1;
    }
    assert(s@.skip(i as int).len() < 2);
    None
}

/// The eight groups of a textual IPv6 address.
pub fn ipv6_exec(s: &str) -> (r: Option<Vec<u64>>)
    ensures
        r matches Some(g) ==> ipv6_of(s@) == Some(nats(g@)) && g@.len() == 8,
        r is None ==> ipv6_of(s@) is None,
{
    let n = s.unicode_len();
    match double_colon_exec(s) {
        None => {
            let parts = split_str(s, ':');
            if parts.len() > 16 {
                proof { lemma_groups_len(crate::text::views(parts@), true); }
                return None;
            }
            match groups_exec(parts.as_slice(), true) {
                Some(g) => if g.len() == 8 { Some(g) } else { None },
                None => None,
            }
        },
        Some(k) => {
            let left = s.substring_char(0, k);
            let right = s.substring_char(k + 2, n);
            assert(left@ =~= s@.take(k as int));
            assert(right@ =~= s@.skip(k + 2));
            if double_colon_exec(right).is_some() {
                return None;
            }
            let l = match side_exec(left, false) {
                Some(l) => l,
                None => return None,
            };
            let r = match side_exec(right, true) {
                Some(r) => r,
                None => return None,
            };
            if l.len() > 7 || r.len() > 7 - l.len() {
                return None;
            }
            let mut g = l;
            let ghost lg = nats(g@);
            let zeros = 8 - g.len() - r.len();
            let mut z: usize = 0;
            while z < zeros
                invariant
                    z <= zeros,
                    nats(g@) == lg + Seq::new(z as nat, |k: int| 0nat),
                decreases zeros - z,
            {
                let ghost before = g@;
                g.push(0);
                assert(nats(g@) =~= nats(before).push(0nat));
                z = z + 1;
                assert(nats(g@) =~= lg + Seq::new(z as nat, |k: int| 0nat));
            }
            let ghost mid = nats(g@);
            let mut j: usize = 0;
            while j < r.len()
                invariant
                    j <= r@.len(),
                    nats(g@) == mid + nats(r@).take(j as int),
                decreases r@.len() - j,
            {
                let ghost before = g@;
                g.push(r[j]);
                assert(nats(g@) =~= nats(before).push(r@[j as int] as nat));
                assert(nats(r@).take(j + 1) =~= nats(r@).take(j as int).push(r@[j as int] as nat));
                j = j + 1;
                assert(nats(g@) =~= mid + nats(r@).take(j as int));
            }
            assert(nats(r@).take(r@.len() as int) =~= nats(r@));
            Some(g)
        },
    }
}

proof fn lemma_groups_len(parts: Seq<Seq<char>>, ipv4_last: bool)
    ensures
        groups_of(parts, ipv4_last) matches Some(g) ==> g.len() >= parts.len(),
    decreases parts.len(),
{
    if parts.len() > 0 {
        lemma_groups_len(parts.drop_last(), false);
    }
}

fn side_exec(s: &str, ipv4_last: bool) -> (r: Option<Vec<u64>>)
    ensures
        r matches Some(g) ==> side_groups(s@, ipv4_last) == Some(nats(g@)),
        r is None ==> side_groups(s@, ipv4_last) is None || side_groups(s@, ipv4_last)->0.len() > 7,
{
    if s.unicode_len() == 0 {
        assert(nats(Seq::<u64>::empty()) =~= Seq::<nat>::empty());
        return Some(Vec::new());
    }
    let parts = split_str(s, ':');
    if parts.len() > 16 {
        proof { lemma_groups_len(crate::text::views(parts@), ipv4_last); }
        return None;
    }
    groups_exec(parts.as_slice(), ipv4_last)
}

fn local_ipv4_exec(a: u64, b: u64, c: u64, d: u64) -> (r: bool)
    ensures
        r == local_ipv4(seq![a as nat, b as nat, c as nat, d as nat]),
{
    a == 127
    || a == 10
    || (a == 172 && 16 <= b && b <= 31)
    || (a == 192 && b == 168)
    || (a == 169 && b == 254)
    || (a == 0 && b == 0 && c == 0 && d == 0)
    || (a == 255 && b == 255 && c == 255 && d == 255)
}

fn local_ipv6_exec(g: &Vec<u64>) -> (r: bool)
    requires
        g@.len() == 8,
    ensures
        r == local_ipv6(nats(g@)),
{
    let ghost n = nats(g@);
    assert(n[0] == g@[0] as nat && n[1] == g@[1] as nat && n[2] == g@[2] as nat && n[3] == g@[3] as nat);
    assert(n[4] == g@[4] as nat && n[5] == g@[5] as nat && n[6] == g@[6] as nat && n[7] == g@[7] as nat);
    let zero_head = g[0] == 0 && g[1] == 0 && g[2] == 0 && g[3] == 0 && g[4] == 0;
    let mapped = zero_head && g[5] == 0xffff
        && local_ipv4_exec(g[6] / 256, g[6] % 256, g[7] / 256, g[7] % 256);
    (zero_head && g[5] == 0 && g[6] == 0 && (g[7] == 0 || g[7] == 1))
    || (0xfc00 <= g[0] && g[0] <= 0xfdff)
    || (0xfe80 <= g[0] && g[0] <= 0xfebf)
    || mapped
}

fn local_prefix_exec(s: &str) -> (r: bool)
    ensures
        r == local_prefix(s@),
{
    if starts_with(s, "127.") || starts_with(s, "10.") || starts_with(s, "192.168.")
        || starts_with(s, "0.0.0.0") {
        return true;
    }
    if !starts_with(s, "172.") || s.unicode_len() < 7 {
        return false;
    }
    let c4 = s.get_char(4);
    let c5 = s.get_char(5);
    s.get_char(6) == '.' && (
        (c4 == '1' && '6' <= c5 && c5 <= '9')
        || (c4 == '2' && '0' <= c5 && c5 <= '9')
        || (c4 == '3' && (c5 == '0' || c5 == '1')))
}

/// Whether a host is local or private: `localhost`, a loopback, private,
/// link-local, unspecified or broadcast IPv4 address, a loopback,
/// unspecified, unique-local or link-local IPv6 address (brackets allowed),
/// an IPv4-mapped IPv6 form of a local IPv4 address, or a name that begins
/// like a private IPv4 address.
pub fn is_private_host(host: &str) -> (r: bool)
    ensures
        r == private_host(host@),
{
    let n = host.unicode_len();
    let bare = if n >= 2 && host.get_char(0) == '[' && host.get_char(n - 1) == ']' {
        host.substring_char(1, n - 1)
    } else {
        host
    };
    if str_eq(bare, "localhost") {
        return true;
    }
    match ipv4_exec(bare) {
        Some(o) => {
            assert(nats(o@) =~= seq![o@[0] as nat, o@[1] as nat, o@[2] as nat, o@[3] as nat]);
            return local_ipv4_exec(o[0], o[1], o[2], o[3]);
        },
        None => {},
    }
    match ipv6_exec(bare) {
        Some(g) => {
            return local_ipv6_exec(&g);
        },
        None => {},
    }
    local_prefix_exec(bare)
}

} // verus!
