//! Network configuration and deterministic MAC addresses.

use vstd::prelude::*;
use vstd::string::StringSliceAdditionalSpecFns;

use crate::text::{
    chars_of, has_prefix, hex_byte_text, hex_char, split_chars, split_on, starts_with, string_of,
    suffix_from, trim, trimmed,
};
use crate::types::{mac_text, MacAddress};

verus! {

/// Network configuration for a VM.
#[derive(Debug, Clone)]
pub struct NetworkConfig {
    /// Optional MAC address (e.g. "5a:94:ef:ab:cd:12"). When set, the VM's
    /// network interface uses it, so DHCP leases stay stable.
    pub mac_address: Option<String>,
}

/// The SHA-256 digest of a byte string.
pub uninterp spec fn sha256(data: Seq<u8>) -> Seq<u8>;

/// `sha2::Sha256::digest`: the SHA-256 digest of `data`. The contract
/// claims that it is the named function of the input and is 32 bytes long.
#[verifier::external_body]
fn sha256_digest(data: &[u8]) -> (r: Vec<u8>)
    ensures
        r@ == sha256(data@),
        r@.len() == 32,
{
    <sha2::Sha256 as sha2::Digest>::digest(data).to_vec()
}

/// The characters of an optional string.
pub open spec fn opt_text(o: Option<&str>) -> Option<Seq<char>> {
    match o {
        Some(s) => Some(s@),
        None => None,
    }
}

/// What is hashed for a host-bound MAC: the UTF-8 bytes of the host's
/// hardware UUID (when it is known), followed by those of the unique id.
pub open spec fn host_mac_input(hardware_uuid: Option<Seq<char>>, unique_id: Seq<char>) -> Seq<u8> {
    match hardware_uuid {
        Some(u) => vstd::utf8::encode_utf8(u) + vstd::utf8::encode_utf8(unique_id),
        None => vstd::utf8::encode_utf8(unique_id),
    }
}

/// The locally-administered address made from a digest: the prefix
/// `52:55:55`, then the digest's first three bytes.
pub open spec fn mac_from_digest(d: Seq<u8>) -> Seq<u8> {
    seq![0x52u8, 0x55u8, 0x55u8, d[0], d[1], d[2]]
}

fn push_bytes(buf: &mut Vec<u8>, s: &str)
    ensures
        final(buf)@ == old(buf)@ + vstd::utf8::encode_utf8(s@),
{
    let bytes = s.as_bytes();
    let ghost start = buf@;
    let mut i: usize = 0;
    while i < bytes.len()
        invariant
            i <= bytes@.len(),
            bytes@ == s.spec_bytes(),
            buf@ == start + bytes@.subrange(0, i as int),
        decreases bytes.len() - i,
    {
        buf.push(bytes[i]);
        assert(bytes@.subrange(0, i + 1) =~= bytes@.subrange(0, i as int).push(bytes@[i as int]));
        i = i + 1;
    }
    assert(bytes@.subrange(0, bytes@.len() as int) =~= bytes@);
}

/// The key that introduces the hardware UUID in the platform expert
/// device's I/O Registry listing (`ioreg -rd1 -c IOPlatformExpertDevice`).
pub open spec fn uuid_key() -> Seq<char> {
    "\"IOPlatformUUID\" = \""@
}

/// The UUID a listing line carries: the line, trimmed, is the key, a
/// non-empty value and a closing quote.
pub open spec fn line_uuid(line: Seq<char>) -> Option<Seq<char>> {
    let t = trim(line);
    if has_prefix(t, uuid_key()) && t.len() > uuid_key().len() + 1 && t.last() == '"' {
        Some(t.subrange(uuid_key().len() as int, t.len() - 1))
    } else {
        None
    }
}

/// The UUID of the first line, among `lines`, that carries one.
pub open spec fn first_line_uuid(lines: Seq<Seq<char>>) -> Option<Seq<char>>
    decreases lines.len(),
{
    if lines.len() == 0 {
        None
    } else {
        match line_uuid(lines[0]) {
            Some(u) => Some(u),
            None => first_line_uuid(lines.drop_first()),
        }
    }
}

/// The hardware UUID in an I/O Registry listing of the platform expert
/// device: the value of the first `"IOPlatformUUID" = "..."` line, if any.
pub fn platform_uuid(listing: &str) -> (r: Option<String>)
    ensures
        match r {
            Some(u) => first_line_uuid(split_on(listing@, '\n')) == Some(u@),
            None => first_line_uuid(split_on(listing@, '\n')) is None,
        },
{
    let chars = chars_of(listing);
    let lines = split_chars(&chars, '\n');
    let key = chars_of("\"IOPlatformUUID\" = \"");
    proof {
        reveal_strlit("\"IOPlatformUUID\" = \"");
    }
    let ghost all = split_on(listing@, '\n');
    assert(lines@.map_values(|v: Vec<char>| v@) == all);
    assert(all.subrange(0, all.len() as int) =~= all);
    let mut i: usize = 0;
    while i < lines.len()
        invariant
            i <= lines@.len(),
            all == split_on(listing@, '\n'),
            lines@.len() == all.len(),
            forall|j: int| 0 <= j < all.len() ==> #[trigger] lines@[j]@ == all[j],
            key@ == uuid_key(),
            first_line_uuid(all) == first_line_uuid(all.subrange(i as int, all.len() as int)),
        decreases lines.len() - i,
    {
        let ghost rest = all.subrange(i as int, all.len() as int);
        assert(rest[0] == all[i as int]);
        assert(rest.drop_first() =~= all.subrange(i + 1, all.len() as int));
        let t = trimmed(&lines[i]);
        assert(t@ == trim(all[i as int]));
        if t.len() > key.len() && t.len() - key.len() > 1 && starts_with(&t, &key) && t[t.len()
            - 1] == '"' {
            let mut u = suffix_from(&t, key.len());
            u.pop();
            assert(u@ =~= t@.subrange(uuid_key().len() as int, t@.len() - 1));
            assert(line_uuid(all[i as int]) == Some(u@));
            assert(first_line_uuid(rest) == Some(u@));
            let s = string_of(&u);
            return Some(s);
        }
        assert(line_uuid(all[i as int]) is None);
        i = i + 1;
    }
    None
}

/// A deterministic locally-administered MAC address text for the VM
/// `unique_id` on the host whose hardware UUID is `hardware_uuid` (`None`
/// when it cannot be read): `52:55:55:` followed by the first three bytes
/// of the SHA-256 digest of the UUID and the id. The same VM on the same
/// host gets the same address across reboots.
pub fn deterministic_mac(hardware_uuid: Option<&str>, unique_id: &str) -> (r: String)
    ensures
        r@ == mac_text(mac_from_digest(sha256(host_mac_input(opt_text(hardware_uuid), unique_id@)))),
{
    let mut input: Vec<u8> = Vec::new();
    match hardware_uuid {
        Some(u) => push_bytes(&mut input, u),
        None => {},
    }
    push_bytes(&mut input, unique_id);
    match hardware_uuid {
        Some(u) => assert(input@ =~= host_mac_input(Some(u@), unique_id@)),
        None => assert(input@ =~= host_mac_input(None, unique_id@)),
    }
    let digest = sha256_digest(input.as_slice());
    let mac = MacAddress([0x52, 0x55, 0x55, digest[0], digest[1], digest[2]]);
    assert(mac.0@ =~= mac_from_digest(digest@));
    mac.to_string()
}

/// Every address with the locally-administered prefix `52:55:55` is
/// written starting with `52:55:55:`.
pub proof fn lemma_local_mac_prefix(b: Seq<u8>)
    requires
        b.len() == 6,
        b[0] == 0x52u8,
        b[1] == 0x55u8,
        b[2] == 0x55u8,
    ensures
        has_prefix(mac_text(b), "52:55:55:"@),
{
    reveal_strlit("52:55:55:");
    let t = mac_text(b);
    assert(hex_byte_text(0x52u8) =~= seq!['5', '2']) by {
        assert(hex_char(5) == '5');
        assert(hex_char(2) == '2');
    }
    assert(hex_byte_text(0x55u8) =~= seq!['5', '5']) by {
        assert(hex_char(5) == '5');
    }
    assert(t.subrange(0, 9) =~= "52:55:55:"@);
}

/// Host-bound addresses start with `52:55:55:`.
pub proof fn lemma_host_mac_prefix(d: Seq<u8>)
    requires
        d.len() == 32,
    ensures
        has_prefix(mac_text(mac_from_digest(d)), "52:55:55:"@),
{
    lemma_local_mac_prefix(mac_from_digest(d));
}

} // verus!
