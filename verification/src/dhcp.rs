//! DHCP lease lookup for macOS NAT networking.
//!
//! The vmnet DHCP server records its leases in `/var/db/dhcpd_leases`, a
//! text file of blocks delimited by `{` and `}` holding `key=value` lines:
//!
//! ```text
//! {
//!   name=minimal
//!   ip_address=192.168.64.9
//!   hw_address=1,52:55:55:aa:bb:cc
//!   identifier=1,52:55:55:aa:bb:cc
//!   lease=0x69caa0ef
//! }
//! ```
//!
//! This module parses that text and finds a VM's address by its MAC.

use vstd::prelude::*;

use crate::text::{
    chars_of, has_prefix, lemma_split_concat, lemma_split_nonempty, split_chars, split_on,
    starts_with, string_of, strip_prefix_or_keep, suffix_from, trim, trim_end, trim_start,
    trimmed,
};

verus! {

/// A parsed DHCP lease entry.
#[derive(Debug, Clone, PartialEq, Eq)]
pub struct DhcpLease {
    pub ip_address: String,
    pub hw_address: String,
    pub name: Option<String>,
}

/// A lease with each string taken by its characters.
pub struct LeaseView {
    pub ip_address: Seq<char>,
    pub hw_address: Seq<char>,
    pub name: Option<Seq<char>>,
}

impl View for DhcpLease {
    type V = LeaseView;

    open spec fn view(&self) -> LeaseView {
        LeaseView {
            ip_address: self.ip_address@,
            hw_address: self.hw_address@,
            name: match self.name {
                Some(n) => Some(n@),
                None => None,
            },
        }
    }
}

/// What the parser has seen of the current block, and the leases so far.
pub struct LeaseScan {
    pub ip: Option<Seq<char>>,
    pub hw: Option<Seq<char>>,
    pub name: Option<Seq<char>>,
    pub leases: Seq<LeaseView>,
}

/// The hardware address of a `hw_address=` value: macOS writes a `1,` type
/// prefix before the MAC, which is dropped when present.
pub open spec fn hw_value(v: Seq<char>) -> Seq<char> {
    strip_prefix_or_keep(v, "1,"@)
}

/// One (trimmed) line of the lease file. A `}` line closes the block: a
/// lease is recorded when the block gave both an IP and a hardware
/// address, and the block's fields are forgotten either way. `ip_address=`,
/// `hw_address=` and `name=` lines set the field; other lines are ignored.
pub open spec fn scan_line(st: LeaseScan, line: Seq<char>) -> LeaseScan {
    if line == "}"@ {
        LeaseScan {
            ip: None,
            hw: None,
            name: None,
            leases: if st.ip is Some && st.hw is Some {
                st.leases.push(
                    LeaseView { ip_address: st.ip->0, hw_address: st.hw->0, name: st.name },
                )
            } else {
                st.leases
            },
        }
    } else if has_prefix(line, "ip_address="@) {
        LeaseScan { ip: Some(line.subrange("ip_address="@.len() as int, line.len() as int)), ..st }
    } else if has_prefix(line, "hw_address="@) {
        LeaseScan {
            hw: Some(hw_value(line.subrange("hw_address="@.len() as int, line.len() as int))),
            ..st
        }
    } else if has_prefix(line, "name="@) {
        LeaseScan { name: Some(line.subrange("name="@.len() as int, line.len() as int)), ..st }
    } else {
        st
    }
}

/// The scan over `lines` in order, from an empty state.
pub open spec fn scan_lines(lines: Seq<Seq<char>>) -> LeaseScan
    decreases lines.len(),
{
    if lines.len() == 0 {
        LeaseScan { ip: None, hw: None, name: None, leases: Seq::empty() }
    } else {
        scan_line(scan_lines(lines.drop_last()), trim(lines.last()))
    }
}

/// The leases recorded in a lease file's text: its lines (the pieces
/// between newlines; a carriage return before a newline is whitespace and
/// is trimmed with the rest), each trimmed, scanned in order.
pub open spec fn leases_of(content: Seq<char>) -> Seq<LeaseView> {
    scan_lines(split_on(content, '\n')).leases
}

/// `st` with the leases `l` recorded before its own.
pub open spec fn after_leases(st: LeaseScan, l: Seq<LeaseView>) -> LeaseScan {
    LeaseScan { leases: l + st.leases, ..st }
}

/// Whether the scan is between blocks: no field of a block is pending.
pub open spec fn between_blocks(st: LeaseScan) -> bool {
    st.ip is None && st.hw is None && st.name is None
}

proof fn lemma_scan_line_after(st: LeaseScan, l: Seq<LeaseView>, line: Seq<char>)
    ensures
        scan_line(after_leases(st, l), line) == after_leases(scan_line(st, line), l),
{
    if line == "}"@ && st.ip is Some && st.hw is Some {
        let lease = LeaseView { ip_address: st.ip->0, hw_address: st.hw->0, name: st.name };
        assert((l + st.leases).push(lease) =~= l + st.leases.push(lease));
    }
}

/// Scanning more lines after a block has closed only adds their leases.
proof fn lemma_scan_lines_concat(xs: Seq<Seq<char>>, ys: Seq<Seq<char>>)
    requires
        between_blocks(scan_lines(xs)),
    ensures
        scan_lines(xs + ys) == after_leases(scan_lines(ys), scan_lines(xs).leases),
    decreases ys.len(),
{
    let l = scan_lines(xs).leases;
    if ys.len() == 0 {
        assert(xs + ys =~= xs);
        assert(l + Seq::<LeaseView>::empty() =~= l);
    } else {
        lemma_scan_lines_concat(xs, ys.drop_last());
        assert((xs + ys).drop_last() =~= xs + ys.drop_last());
        assert((xs + ys).last() == ys.last());
        lemma_scan_line_after(scan_lines(ys.drop_last()), l, trim(ys.last()));
    }
}

/// An empty line changes nothing.
proof fn lemma_empty_line_ignored(st: LeaseScan)
    ensures
        scan_line(st, trim(Seq::<char>::empty())) == st,
{
    reveal_strlit("}");
    reveal_strlit("ip_address=");
    reveal_strlit("hw_address=");
    reveal_strlit("name=");
    let e = Seq::<char>::empty();
    assert(trim_start(e) == e);
    assert(trim_end(e) == e);
    assert(trim(e) == e);
    assert(e != "}"@) by {
        assert("}"@.len() == 1);
    }
}

/// A lease file cut right after a line that closes a block (or before
/// anything) parses as its two parts, one after the other.
pub proof fn lemma_leases_concat(a: Seq<char>, b: Seq<char>)
    requires
        a.len() == 0 || (a.last() == '\n' && trim(split_on(a.drop_last(), '\n').last()) == "}"@),
    ensures
        leases_of(a + b) == leases_of(a) + leases_of(b),
{
    let init = LeaseScan { ip: None, hw: None, name: None, leases: Seq::empty() };
    if a.len() == 0 {
        assert(a + b =~= b);
        let one = seq![Seq::<char>::empty()];
        assert(split_on(a, '\n') =~= one);
        assert(one.drop_last() =~= Seq::<Seq<char>>::empty());
        lemma_empty_line_ignored(init);
        assert(scan_lines(Seq::<Seq<char>>::empty()) == init);
        assert(one.last() == Seq::<char>::empty());
        assert(scan_lines(one) == scan_line(scan_lines(one.drop_last()), trim(one.last())));
        assert(scan_lines(one) == init);
        assert(leases_of(a) =~= Seq::<LeaseView>::empty());
        assert(leases_of(a) + leases_of(b) =~= leases_of(b));
    } else {
        let x = a.drop_last();
        assert(x.push('\n') =~= a);
        let p = split_on(x, '\n');
        lemma_split_nonempty(x, '\n');
        lemma_split_concat(x, '\n', b);
        assert(p.drop_last().push(p.last()) =~= p);
        let closed = scan_lines(p);
        assert(closed == scan_line(scan_lines(p.drop_last()), trim(p.last())));
        assert(between_blocks(closed));
        lemma_scan_lines_concat(p, split_on(b, '\n'));
        // The piece after the final newline of `a` is empty and changes nothing.
        assert(split_on(a, '\n') == p.push(Seq::<char>::empty()));
        assert(p.push(Seq::<char>::empty()).drop_last() =~= p);
        lemma_empty_line_ignored(closed);
        assert(scan_lines(split_on(a, '\n')) == closed);
    }
}

/// The views of a list of leases.
pub open spec fn lease_views(v: Seq<DhcpLease>) -> Seq<LeaseView> {
    v.map_values(|l: DhcpLease| l@)
}

/// Parse the macOS DHCP lease file format.
pub fn parse_leases(content: &str) -> (r: Vec<DhcpLease>)
    ensures
        lease_views(r@) == leases_of(content@),
{
    let chars = chars_of(content);
    let lines = split_chars(&chars, '\n');
    let ghost line_views = lines@.map_values(|v: Vec<char>| v@);
    let close = chars_of("}");
    let ip_key = chars_of("ip_address=");
    let hw_key = chars_of("hw_address=");
    let name_key = chars_of("name=");
    let type_prefix = chars_of("1,");
    let mut leases: Vec<DhcpLease> = Vec::new();
    let mut ip: Option<String> = None;
    let mut hw: Option<String> = None;
    let mut name: Option<String> = None;
    let mut k: usize = 0;
    while k < lines.len()
        invariant
            k <= lines@.len(),
            line_views == lines@.map_values(|v: Vec<char>| v@),
            line_views == split_on(content@, '\n'),
            close@ == "}"@,
            ip_key@ == "ip_address="@,
            hw_key@ == "hw_address="@,
            name_key@ == "name="@,
            type_prefix@ == "1,"@,
            ({
                let st = scan_lines(line_views.subrange(0, k as int));
                &&& st.ip == (match ip {
                    Some(s) => Some(s@),
                    None => None::<Seq<char>>,
                })
                &&& st.hw == (match hw {
                    Some(s) => Some(s@),
                    None => None::<Seq<char>>,
                })
                &&& st.name == (match name {
                    Some(s) => Some(s@),
                    None => None::<Seq<char>>,
                })
                &&& st.leases == lease_views(leases@)
            }),
        decreases lines.len() - k,
    {
        let ghost before = scan_lines(line_views.subrange(0, k as int));
        let ghost next_lines = line_views.subrange(0, k + 1);
        assert(next_lines.drop_last() =~= line_views.subrange(0, k as int));
        assert(next_lines.last() == lines@[k as int]@);
        let line = trimmed(&lines[k]);
        let ghost after = scan_line(before, line@);
        assert(scan_lines(next_lines) == after);
        if line.len() == close.len() && starts_with(&line, &close) {
            assert(line@ =~= "}"@) by {
                assert(line@.subrange(0, close@.len() as int) == close@);
                assert(line@.subrange(0, close@.len() as int) =~= line@);
            }
            let taken_ip = ip;
            let taken_hw = hw;
            let taken_name = name;
            ip = None;
            hw = None;
            name = None;
            match (taken_ip, taken_hw) {
                (Some(i), Some(h)) => {
                    let ghost old_views = lease_views(leases@);
                    leases.push(DhcpLease { ip_address: i, hw_address: h, name: taken_name });
                    assert(lease_views(leases@) =~= old_views.push(leases@.last()@));
                },
                _ => {},
            }
        } else {
            if line.len() == close.len() {
                assert(line@ != "}"@) by {
                    if line@ == "}"@ {
                        assert(line@.subrange(0, close@.len() as int) =~= line@);
                    }
                }
            } else {
                assert(line@.len() != "}"@.len());
            }
            if starts_with(&line, &ip_key) {
                ip = Some(string_of(&suffix_from(&line, ip_key.len())));
            } else if starts_with(&line, &hw_key) {
                let value = suffix_from(&line, hw_key.len());
                if starts_with(&value, &type_prefix) {
                    hw = Some(string_of(&suffix_from(&value, type_prefix.len())));
                } else {
                    hw = Some(string_of(&value));
                }
            } else if starts_with(&line, &name_key) {
                name = Some(string_of(&suffix_from(&line, name_key.len())));
            }
        }
        k = k + 1;
    }
    assert(line_views.subrange(0, lines@.len() as int) =~= line_views);
    leases
}

/// Unicode lowercase of a string, as `str::to_lowercase` computes it.
pub uninterp spec fn lowercase(s: Seq<char>) -> Seq<char>;

/// Whether every character of `s` is ASCII.
pub open spec fn is_ascii_text(s: Seq<char>) -> bool {
    forall|i: int| 0 <= i < s.len() ==> (#[trigger] s[i] as u32) < 128
}

/// A character with `A`..`Z` mapped to `a`..`z`.
pub open spec fn ascii_lower_char(c: char) -> char {
    let u = c as u32;
    if 0x41 <= u && u <= 0x5a {
        (u + 0x20) as char
    } else {
        c
    }
}

/// `s` with its ASCII capital letters made small.
pub open spec fn ascii_lowercase(s: Seq<char>) -> Seq<char> {
    Seq::new(s.len(), |i: int| ascii_lower_char(s[i]))
}

/// `str::to_lowercase`. The contract claims that the result is the named
/// function of the input and that, on ASCII text, it maps `A`..`Z` to
/// `a`..`z` and keeps every other character; the Unicode case mapping
/// beyond ASCII is not stated.
#[verifier::external_body]
fn to_lowercase(s: &str) -> (r: String)
    ensures
        r@ == lowercase(s@),
        is_ascii_text(s@) ==> r@ == ascii_lowercase(s@),
{
    s.to_lowercase()
}

/// The index of the last of the first `n` leases whose hardware address
/// equals `key` after lowercasing.
pub open spec fn last_match(leases: Seq<LeaseView>, key: Seq<char>, n: int) -> Option<int>
    decreases n,
{
    if n <= 0 {
        None
    } else if lowercase(leases[n - 1].hw_address) == key {
        Some(n - 1)
    } else {
        last_match(leases, key, n - 1)
    }
}

/// The index of the last of the first `n` leases whose hardware address
/// equals `key` after making ASCII capitals small.
pub open spec fn last_ascii_match(leases: Seq<LeaseView>, key: Seq<char>, n: int) -> Option<int>
    decreases n,
{
    if n <= 0 {
        None
    } else if ascii_lowercase(leases[n - 1].hw_address) == key {
        Some(n - 1)
    } else {
        last_ascii_match(leases, key, n - 1)
    }
}

proof fn lemma_last_ascii_match_in_range(leases: Seq<LeaseView>, key: Seq<char>, n: int)
    requires
        0 <= n <= leases.len(),
    ensures
        last_ascii_match(leases, key, n) matches Some(i) ==> 0 <= i < n,
    decreases n,
{
    if n > 0 {
        lemma_last_ascii_match_in_range(leases, key, n - 1);
    }
}

/// Whether every lease's hardware address is ASCII text.
pub open spec fn all_hw_ascii(leases: Seq<LeaseView>) -> bool {
    forall|i: int| 0 <= i < leases.len() ==> is_ascii_text(#[trigger] leases[i].hw_address)
}

/// Find a lease by MAC address (case-insensitive): the last matching one,
/// which is the most recent in the file.
pub fn find_lease_by_mac<'a>(leases: &'a [DhcpLease], mac: &str) -> (r: Option<&'a DhcpLease>)
    ensures
        match last_match(lease_views(leases@), lowercase(mac@), leases@.len() as int) {
            Some(i) => r matches Some(l) && *l == leases@[i],
            None => r is None,
        },
        is_ascii_text(mac@) && all_hw_ascii(lease_views(leases@)) ==> match last_ascii_match(
            lease_views(leases@),
            ascii_lowercase(mac@),
            leases@.len() as int,
        ) {
            Some(i) => r matches Some(l) && *l == leases@[i],
            None => r is None,
        },
{
    let key = to_lowercase(mac);
    let ghost views = lease_views(leases@);
    let ghost ascii = is_ascii_text(mac@) && all_hw_ascii(views);
    let mut n = leases.len();
    while n > 0
        invariant
            n <= leases@.len(),
            views == lease_views(leases@),
            key@ == lowercase(mac@),
            is_ascii_text(mac@) ==> key@ == ascii_lowercase(mac@),
            ascii == (is_ascii_text(mac@) && all_hw_ascii(views)),
            last_match(views, key@, leases@.len() as int) == last_match(views, key@, n as int),
            ascii ==> last_ascii_match(views, key@, leases@.len() as int) == last_ascii_match(
                views,
                key@,
                n as int,
            ),
        decreases n,
    {
        let hw = to_lowercase(leases[n - 1].hw_address.as_str());
        assert(views[n - 1].hw_address == leases@[n - 1].hw_address@);
        proof {
            if ascii {
                assert(is_ascii_text(views[n - 1].hw_address));
            }
        }
        if hw == key {
            return Some(&leases[n - 1]);
        }
        n = n - 1;
    }
    None
}

/// The IP address that the lease file `content` records for `mac`: that of
/// the last lease whose hardware address matches it, ignoring case.
pub fn lease_ip_for_mac(content: &str, mac: &str) -> (r: Option<String>)
    ensures
        ({
            let leases = leases_of(content@);
            match last_match(leases, lowercase(mac@), leases.len() as int) {
                Some(i) => r matches Some(ip) && ip@ == leases[i].ip_address,
                None => r is None,
            }
        }),
        ({
            let leases = leases_of(content@);
            is_ascii_text(mac@) && all_hw_ascii(leases) ==> match last_ascii_match(
                leases,
                ascii_lowercase(mac@),
                leases.len() as int,
            ) {
                Some(i) => r matches Some(ip) && ip@ == leases[i].ip_address,
                None => r is None,
            }
        }),
{
    let leases = parse_leases(content);
    let slice = leases.as_slice();
    assert(slice@ == leases@);
    let ghost views = lease_views(leases@);
    assert(views.len() == leases@.len());
    match find_lease_by_mac(slice, mac) {
        Some(l) => {
            let ghost i = last_match(views, lowercase(mac@), views.len() as int)->0;
            proof {
                lemma_last_match_is_last(views, lowercase(mac@), views.len() as int);
                lemma_last_ascii_match_in_range(views, ascii_lowercase(mac@), views.len() as int);
                if is_ascii_text(mac@) && all_hw_ascii(views) {
                    let k = last_ascii_match(views, ascii_lowercase(mac@), views.len() as int)->0;
                    assert(views[k].ip_address == leases@[k].ip_address@);
                }
            }
            assert(views[i].ip_address == leases@[i].ip_address@);
            Some(l.ip_address.clone())
        },
        None => None,
    }
}

/// The lease that the lookup finds is the last one in the list whose
/// hardware address matches, and no lease matches when it finds none.
pub proof fn lemma_last_match_is_last(leases: Seq<LeaseView>, key: Seq<char>, n: int)
    requires
        0 <= n <= leases.len(),
    ensures
        match last_match(leases, key, n) {
            Some(i) => 0 <= i < n && lowercase(leases[i].hw_address) == key && forall|j: int|
                i < j < n ==> lowercase(#[trigger] leases[j].hw_address) != key,
            None => forall|j: int| 0 <= j < n ==> lowercase(#[trigger] leases[j].hw_address) != key,
        },
    decreases n,
{
    if n > 0 {
        lemma_last_match_is_last(leases, key, n - 1);
    }
}

} // verus!
