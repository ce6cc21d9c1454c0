//! Core platform types: identifiers, MAC addresses, attachments and
//! runtime information. All are plain data.

use std::collections::hash_map::DefaultHasher;
use std::hash::Hasher;

use vstd::prelude::*;
use vstd::std_specs::hash::DefaultHasherAdditionalSpecFns;
use vstd::string::StringSliceAdditionalSpecFns;

use crate::error::{KasouError, KasouErrorView};
use crate::text::{
    chars_of, hex_byte_text, lemma_hex_byte_round_trip, lemma_split_append,
    lemma_split_no_sep, parse_hex_byte, parse_hex_u8, push_hex_byte, split_chars, split_on,
    string_of,
};
use crate::vm::VmState;

verus! {

/// Unique identifier for a virtual machine.
#[derive(Clone, Debug, PartialEq, Eq, Hash, Default)]
pub struct VmId(pub String);

impl VmId {
    /// The identifier's text.
    pub fn to_string(&self) -> (r: String)
        ensures
            r@ == self.0@,
    {
        self.0.clone()
    }
}

impl From<&str> for VmId {
    fn from(s: &str) -> (r: Self)
        ensures
            r.0@ == s@,
    {
        VmId(s.to_owned())
    }
}

impl vstd::std_specs::convert::FromSpecImpl<&str> for VmId {
    // A `String` cannot be built from characters in specifications, so the
    // conversion is described by the `ensures` of `from` instead.
    open spec fn obeys_from_spec() -> bool {
        false
    }

    open spec fn from_spec(v: &str) -> VmId {
        arbitrary()
    }
}

impl From<String> for VmId {
    fn from(s: String) -> (r: Self)
        ensures
            r.0 == s,
    {
        VmId(s)
    }
}

impl vstd::std_specs::convert::FromSpecImpl<String> for VmId {
    open spec fn obeys_from_spec() -> bool {
        true
    }

    open spec fn from_spec(v: String) -> VmId {
        VmId(v)
    }
}

/// 6-byte MAC address.
#[derive(Clone, Debug, PartialEq, Eq, Hash)]
pub struct MacAddress(pub [u8; 6]);

/// The colon-separated lowercase text of six bytes, e.g. `5a:94:ef:ab:cd:12`.
pub open spec fn mac_text(b: Seq<u8>) -> Seq<char> {
    hex_byte_text(b[0]) + seq![':'] + hex_byte_text(b[1]) + seq![':'] + hex_byte_text(b[2])
        + seq![':'] + hex_byte_text(b[3]) + seq![':'] + hex_byte_text(b[4]) + seq![':']
        + hex_byte_text(b[5])
}

/// The bytes that a MAC address text denotes: exactly six colon-separated
/// parts, each a byte in hexadecimal as `u8::from_str_radix(part, 16)`
/// accepts it.
pub open spec fn mac_bytes_of(s: Seq<char>) -> Option<Seq<u8>> {
    let parts = split_on(s, ':');
    if parts.len() == 6 && forall|i: int| 0 <= i < 6 ==> (#[trigger] parse_hex_byte(parts[i])) is Some {
        Some(Seq::new(6, |i: int| parse_hex_byte(parts[i])->0))
    } else {
        None
    }
}

/// The locally-administered address made from a 64-bit hash: the prefix
/// `52:55:55`, then the hash's three least significant bytes, lowest first.
pub open spec fn mac_from_hash_bytes(h: u64) -> Seq<u8> {
    seq![0x52u8, 0x55u8, 0x55u8, (h % 256) as u8, ((h / 256) % 256) as u8, ((h / 65536) % 256) as u8]
}

/// What is fed to the hasher for one string: its UTF-8 bytes, then `0xff`
/// (the way `str` hashes itself).
pub open spec fn hashed_str(s: Seq<char>) -> Seq<Seq<u8>> {
    seq![vstd::utf8::encode_utf8(s), seq![0xffu8]]
}

/// The hash of a seed and a unique identifier under `DefaultHasher`.
pub open spec fn seeded_hash(seed: Seq<char>, unique_id: Seq<char>) -> u64 {
    DefaultHasher::spec_finish(hashed_str(seed) + hashed_str(unique_id))
}

/// The seeded hash is `DefaultHasher` fed the seed first and the id
/// second, each as `str` hashes itself (UTF-8 bytes, then `0xff`): the
/// seed is part of what is hashed, ahead of the id.
pub proof fn lemma_seeded_hash_input(seed: Seq<char>, unique_id: Seq<char>)
    ensures
        seeded_hash(seed, unique_id) == DefaultHasher::spec_finish(
            seq![
                vstd::utf8::encode_utf8(seed),
                seq![0xffu8],
                vstd::utf8::encode_utf8(unique_id),
                seq![0xffu8],
            ],
        ),
{
    assert(hashed_str(seed) + hashed_str(unique_id) =~= seq![
        vstd::utf8::encode_utf8(seed),
        seq![0xffu8],
        vstd::utf8::encode_utf8(unique_id),
        seq![0xffu8],
    ]);
}

/// Feeds one string to the hasher as `str`'s `Hash` implementation does.
pub(crate) fn hash_str(h: &mut DefaultHasher, s: &str)
    ensures
        final(h)@ == old(h)@ + hashed_str(s@),
{
    h.write(s.as_bytes());
    let end: [u8; 1] = [0xff];
    h.write(&end);
    assert(end@ =~= seq![0xffu8]);
    assert(final(h)@ =~= old(h)@ + hashed_str(s@)) by {
        assert(s.spec_bytes() == vstd::utf8::encode_utf8(s@));
    }
}

impl MacAddress {
    /// The locally-administered address for a 64-bit hash value.
    pub fn from_hash(h: u64) -> (r: Self)
        ensures
            r.0@ == mac_from_hash_bytes(h),
    {
        let r = MacAddress([0x52, 0x55, 0x55, (h % 256) as u8, ((h / 256) % 256) as u8, ((h / 65536) % 256) as u8]);
        assert(r.0@ =~= mac_from_hash_bytes(h));
        r
    }

    /// Generate a deterministic locally-administered MAC from a seed and a
    /// unique ID: `52:55:55` followed by three bytes of their hash.
    pub fn deterministic(seed: &str, unique_id: &str) -> (r: Self)
        ensures
            r.0@ == mac_from_hash_bytes(seeded_hash(seed@, unique_id@)),
            r.0@ == mac_from_hash_bytes(
                DefaultHasher::spec_finish(
                    seq![
                        vstd::utf8::encode_utf8(seed@),
                        seq![0xffu8],
                        vstd::utf8::encode_utf8(unique_id@),
                        seq![0xffu8],
                    ],
                ),
            ),
    {
        let mut hasher = DefaultHasher::new();
        hash_str(&mut hasher, seed);
        hash_str(&mut hasher, unique_id);
        assert(hasher@ =~= hashed_str(seed@) + hashed_str(unique_id@));
        proof {
            lemma_seeded_hash_input(seed@, unique_id@);
        }
        Self::from_hash(hasher.finish())
    }

    /// Parse a MAC address from colon-separated hexadecimal text
    /// (e.g. `"5a:94:ef:ab:cd:12"`).
    pub fn parse(s: &str) -> (r: Result<Self, KasouError>)
        ensures
            match r {
                Ok(m) => mac_bytes_of(s@) == Some(m.0@),
                Err(e) => mac_bytes_of(s@) is None && e@ == KasouErrorView::InvalidMac(s@),
            },
    {
        let chars = chars_of(s);
        let parts = split_chars(&chars, ':');
        let ghost views = parts@.map_values(|v: Vec<char>| v@);
        if parts.len() != 6 {
            return Err(KasouError::InvalidMac(s.to_owned()));
        }
        let mut bytes: Vec<u8> = Vec::new();
        let mut i: usize = 0;
        while i < 6
            invariant
                i <= 6,
                parts@.len() == 6,
                views == split_on(s@, ':'),
                views == parts@.map_values(|v: Vec<char>| v@),
                bytes@.len() == i,
                forall|j: int| 0 <= j < i ==> parse_hex_byte(#[trigger] views[j]) == Some(bytes@[j]),
            decreases 6 - i,
        {
            assert(views[i as int] == parts@[i as int]@);
            match parse_hex_u8(&parts[i]) {
                Some(b) => bytes.push(b),
                None => {
                    assert(parse_hex_byte(views[i as int]) is None);
                    return Err(KasouError::InvalidMac(s.to_owned()));
                },
            }
            i = i + 1;
        }
        let m = MacAddress([bytes[0], bytes[1], bytes[2], bytes[3], bytes[4], bytes[5]]);
        assert(m.0@ =~= Seq::new(6, |j: int| parse_hex_byte(views[j])->0));
        Ok(m)
    }

    /// The colon-separated lowercase text, e.g. `"5a:94:ef:ab:cd:12"`.
    pub fn to_string(&self) -> (r: String)
        ensures
            r@ == mac_text(self.0@),
    {
        let mut buf: Vec<char> = Vec::new();
        push_hex_byte(&mut buf, self.0[0]);
        buf.push(':');
        push_hex_byte(&mut buf, self.0[1]);
        buf.push(':');
        push_hex_byte(&mut buf, self.0[2]);
        buf.push(':');
        push_hex_byte(&mut buf, self.0[3]);
        buf.push(':');
        push_hex_byte(&mut buf, self.0[4]);
        buf.push(':');
        push_hex_byte(&mut buf, self.0[5]);
        assert(buf@ =~= mac_text(self.0@));
        string_of(&buf)
    }
}

/// Two hex digits never contain a colon.
proof fn lemma_hex_text_no_colon(b: u8)
    ensures
        !hex_byte_text(b).contains(':'),
{
    let t = hex_byte_text(b);
    if t.contains(':') {
        let k = choose|k: int| 0 <= k < t.len() && t[k] == ':';
        assert(k == 0 || k == 1);
    }
}

/// Formatting an address and parsing the text back gives the same bytes.
pub proof fn lemma_mac_text_round_trip(b: Seq<u8>)
    requires
        b.len() == 6,
    ensures
        mac_bytes_of(mac_text(b)) == Some(b),
{
    let h0 = hex_byte_text(b[0]);
    let h1 = hex_byte_text(b[1]);
    let h2 = hex_byte_text(b[2]);
    let h3 = hex_byte_text(b[3]);
    let h4 = hex_byte_text(b[4]);
    let h5 = hex_byte_text(b[5]);
    lemma_hex_text_no_colon(b[0]);
    lemma_hex_text_no_colon(b[1]);
    lemma_hex_text_no_colon(b[2]);
    lemma_hex_text_no_colon(b[3]);
    lemma_hex_text_no_colon(b[4]);
    lemma_hex_text_no_colon(b[5]);
    lemma_split_no_sep(h0, ':');
    lemma_split_append(h0, ':', h1);
    assert(h0.push(':') + h1 =~= h0 + seq![':'] + h1);
    let t1 = h0 + seq![':'] + h1;
    lemma_split_append(t1, ':', h2);
    assert(t1.push(':') + h2 =~= t1 + seq![':'] + h2);
    let t2 = t1 + seq![':'] + h2;
    lemma_split_append(t2, ':', h3);
    assert(t2.push(':') + h3 =~= t2 + seq![':'] + h3);
    let t3 = t2 + seq![':'] + h3;
    lemma_split_append(t3, ':', h4);
    assert(t3.push(':') + h4 =~= t3 + seq![':'] + h4);
    let t4 = t3 + seq![':'] + h4;
    lemma_split_append(t4, ':', h5);
    assert(t4.push(':') + h5 =~= t4 + seq![':'] + h5);
    let t5 = t4 + seq![':'] + h5;
    assert(t5 == mac_text(b));
    let parts = split_on(t5, ':');
    assert(parts =~= seq![h0, h1, h2, h3, h4, h5]);
    lemma_hex_byte_round_trip(b[0]);
    lemma_hex_byte_round_trip(b[1]);
    lemma_hex_byte_round_trip(b[2]);
    lemma_hex_byte_round_trip(b[3]);
    lemma_hex_byte_round_trip(b[4]);
    lemma_hex_byte_round_trip(b[5]);
    assert(forall|i: int| 0 <= i < 6 ==> (#[trigger] parse_hex_byte(parts[i])) == Some(b[i]));
    assert(Seq::new(6, |i: int| parse_hex_byte(parts[i])->0) =~= b);
}

/// Network attachment strategy.
#[derive(Clone, Debug)]
pub enum NetworkAttachment {
    /// NAT networking — VM gets a 192.168.64.x address via macOS DHCP.
    Nat,
    /// Bridged networking — VM gets an IP on the host's LAN.
    /// Requires `com.apple.vm.networking` entitlement.
    Bridged { interface: String },
}

/// vsock configuration for host<>guest communication without networking.
#[derive(Clone, Debug)]
pub struct VsockConfig {
    /// Context ID (CID) for the guest. Must be >= 3.
    pub cid: u32,
    /// Host-side Unix socket path for connections.
    pub socket_path: Option<String>,
}

/// Memory balloon configuration for dynamic memory management.
#[derive(Clone, Debug)]
pub struct BalloonConfig {
    /// Release memory back to host when guest has OOM pressure.
    pub deflate_on_oom: bool,
}

/// Runtime information about a VM.
#[derive(Clone, Debug)]
pub struct VmInfo {
    pub id: VmId,
    pub state: VmState,
    pub pid: Option<u32>,
    pub uptime_secs: Option<u64>,
    pub mac_address: Option<MacAddress>,
    pub ip_address: Option<String>,
}

/// Per-disk I/O metrics.
#[derive(Clone, Debug, Default)]
pub struct DiskMetrics {
    pub id: String,
    pub read_bytes: u64,
    pub write_bytes: u64,
}

/// Per-interface network metrics.
#[derive(Clone, Debug, Default)]
pub struct NetworkMetrics {
    pub id: String,
    pub rx_bytes: u64,
    pub tx_bytes: u64,
}

} // verus!
