use std::str::FromStr;
use vstd::prelude::*;
use vstd::string::*;

use discv5::enr::{CombinedKey, Enr, EnrBuilder};

use crate::text::{
    chars_of, find_from, first_occurrence, lemma_first_occurrence_exists, lemma_spec_find_is,
    occurs_at, spec_find,
};

verus! {

/// The text that opens the `eth2` entry in the debug form of an ENR:
/// `"eth2", "`.
pub open spec fn eth2_open() -> Seq<char> {
    seq!['"', 'e', 't', 'h', '2', '"', ',', ' ', '"']
}

/// The text that closes that entry: `")`.
pub open spec fn eth2_close() -> Seq<char> {
    seq!['"', ')']
}

/// The `eth2` value in the debug form of an ENR: the text between the first
/// `"eth2", "` and the first `")` after it.
pub open spec fn spec_eth2_value(s: Seq<char>) -> Option<Seq<char>> {
    match spec_find(s, eth2_open()) {
        Some(i) => match spec_find(s.skip(i + 9), eth2_close()) {
            Some(j) => Some(s.subrange(i + 9, i + 9 + j)),
            None => None,
        },
        None => None,
    }
}

/// Extracts the `eth2` value from the debug form of an ENR: the text
/// between the leftmost `"eth2", "` and the first `")` after it, whatever
/// its length; none only when one of the two is missing.
pub fn get_eth2_value(enr_string: &str) -> (value: Option<String>)
    ensures
        match spec_eth2_value(enr_string@) {
            Some(v) => value matches Some(s) && s@ == v,
            None => value is None,
        },
        forall|i: int, j: int|
            #![trigger first_occurrence(enr_string@, eth2_open(), i), first_occurrence(enr_string@.skip(i + 9), eth2_close(), j)]
            first_occurrence(enr_string@, eth2_open(), i)
                && first_occurrence(enr_string@.skip(i + 9), eth2_close(), j) ==> (value matches Some(s) && s@
                == enr_string@.subrange(i + 9, i + 9 + j)),
{
    proof {
        assert forall|i: int, j: int|
            #![trigger first_occurrence(enr_string@, eth2_open(), i), first_occurrence(enr_string@.skip(i + 9), eth2_close(), j)]
            first_occurrence(enr_string@, eth2_open(), i)
                && first_occurrence(enr_string@.skip(i + 9), eth2_close(), j) implies spec_eth2_value(
            enr_string@,
        ) == Some(enr_string@.subrange(i + 9, i + 9 + j)) by {
            lemma_eth2_value_found(enr_string@, i, j);
        }
    }
    let text = chars_of(enr_string);
    let open_chars: [char; 9] = ['"', 'e', 't', 'h', '2', '"', ',', ' ', '"'];
    let close_chars: [char; 2] = ['"', ')'];
    let open = open_chars.as_slice();
    let close = close_chars.as_slice();
    assert(open@ =~= eth2_open());
    assert(close@ =~= eth2_close());
    assert(text@.skip(0) =~= text@);
    let n = text.len();
    let found = find_from(&text, 0, open);
    match found {
        Some(start) => {
            assert(start + 9 <= n);
            assert(spec_find(enr_string@, eth2_open()) == Some(start as int));
            let rest = start + 9;
            let found_end = find_from(&text, rest, close);
            match found_end {
                Some(end) => {
                    assert(spec_find(enr_string@.skip(rest as int), eth2_close()) == Some(
                        end - rest,
                    ));
                    let value = enr_string.substring_char(rest, end);
                    Some(value.to_owned())
                },
                None => None,
            }
        },
        None => None,
    }
}

/// The extraction is complete and exact: whenever the text holds
/// `"eth2", "` (its leftmost occurrence starting at `i`) and a `")` after
/// it (the first one `j` characters after the opening), the value is the
/// text between them, whatever its length.
pub proof fn lemma_eth2_value_found(s: Seq<char>, i: int, j: int)
    requires
        first_occurrence(s, seq!['"', 'e', 't', 'h', '2', '"', ',', ' ', '"'], i),
        first_occurrence(s.skip(i + 9), seq!['"', ')'], j),
    ensures
        spec_eth2_value(s) == Some(s.subrange(i + 9, i + 9 + j)),
{
    assert(eth2_open() =~= seq!['"', 'e', 't', 'h', '2', '"', ',', ' ', '"']);
    assert(eth2_close() =~= seq!['"', ')']);
    lemma_spec_find_is(s, eth2_open(), i);
    lemma_spec_find_is(s.skip(i + 9), eth2_close(), j);
}

/// A `")` occurs `k` characters after the `"eth2", "` that starts at `i`.
pub open spec fn closes_after(s: Seq<char>, i: int, k: int) -> bool {
    occurs_at(s.skip(i + 9), seq!['"', ')'], k)
}

/// There is no value only when the text has no `"eth2", "`, or has no
/// `")` after its leftmost one; and whenever there is an opening followed
/// by a closing, there is a value.
pub proof fn lemma_eth2_value_missing(s: Seq<char>)
    ensures
        spec_eth2_value(s) is None <==> {
            ||| forall|k: int| !occurs_at(s, seq!['"', 'e', 't', 'h', '2', '"', ',', ' ', '"'], k)
            ||| exists|i: int|
                first_occurrence(s, seq!['"', 'e', 't', 'h', '2', '"', ',', ' ', '"'], i)
                    && forall|k: int| !#[trigger] closes_after(s, i, k)
        },
{
    let open = seq!['"', 'e', 't', 'h', '2', '"', ',', ' ', '"'];
    let close = seq!['"', ')'];
    assert(eth2_open() =~= open);
    assert(eth2_close() =~= close);
    if exists|k: int| occurs_at(s, open, k) {
        let k = choose|k: int| occurs_at(s, open, k);
        lemma_first_occurrence_exists(s, open, k);
        let i = choose|i: int| 0 <= i <= k && first_occurrence(s, open, i);
        lemma_spec_find_is(s, open, i);
        let rest = s.skip(i + 9);
        if exists|m: int| occurs_at(rest, close, m) {
            let m = choose|m: int| occurs_at(rest, close, m);
            lemma_first_occurrence_exists(rest, close, m);
            let j = choose|j: int| 0 <= j <= m && first_occurrence(rest, close, j);
            lemma_spec_find_is(rest, close, j);
            assert forall|i2: int| first_occurrence(s, open, i2) implies !(forall|k2: int|
                !#[trigger] closes_after(s, i2, k2)) by {
                crate::text::lemma_first_occurrence_unique(s, open, i, i2);
                assert(closes_after(s, i2, j));
            }
        } else {
            assert forall|k2: int| !#[trigger] closes_after(s, i, k2) by {
                assert(!occurs_at(rest, close, k2));
            }
            assert(first_occurrence(s, open, i));
        }
    }
}

/// The value found sits in the text between `"eth2", "` and `")`, and
/// holds no `")` itself: it is the text up to the first closing quote and
/// parenthesis.
pub proof fn lemma_eth2_value_enclosed(s: Seq<char>, value: Seq<char>)
    requires
        spec_eth2_value(s) == Some(value),
    ensures
        exists|i: int| occurs_at(s, eth2_open() + value + eth2_close(), i),
        forall|k: int| !occurs_at(value, eth2_close(), k),
{
    let i = spec_find(s, eth2_open())->0;
    let rest = s.skip(i + 9);
    let j = spec_find(rest, eth2_close())->0;
    assert(first_occurrence(s, eth2_open(), i));
    assert(first_occurrence(rest, eth2_close(), j));
    let v = s.subrange(i + 9, i + 9 + j);
    assert(spec_eth2_value(s) == Some(v));
    assert(v == value);
    assert(v.len() == j);
    assert(s.subrange(i, i + 9 + v.len() + 2) =~= eth2_open() + v + eth2_close()) by {
        assert(s.subrange(i, i + 9) == eth2_open());
        assert(rest.subrange(j, j + 2) == eth2_close());
    }
    assert(occurs_at(s, eth2_open() + v + eth2_close(), i));
    assert forall|k: int| !occurs_at(v, eth2_close(), k) by {
        if occurs_at(v, eth2_close(), k) {
            assert(rest.subrange(k, k + 2) =~= v.subrange(k, k + 2));
            assert(occurs_at(rest, eth2_close(), k));
            assert(k < j);
            assert(!occurs_at(rest, eth2_close(), k));
        }
    }
    assert(exists|i: int| occurs_at(s, eth2_open() + v + eth2_close(), i));
}

/// `c` is a hexadecimal digit, in either case.
pub open spec fn is_hex_digit(c: char) -> bool {
    ||| ('0' as u32 <= c as u32 && c as u32 <= '9' as u32)
    ||| ('a' as u32 <= c as u32 && c as u32 <= 'f' as u32)
    ||| ('A' as u32 <= c as u32 && c as u32 <= 'F' as u32)
}

/// The value of the hexadecimal digit `c`.
pub open spec fn hex_digit_value(c: char) -> int {
    if '0' as u32 <= c as u32 && c as u32 <= '9' as u32 {
        c as u32 - '0' as u32
    } else if 'a' as u32 <= c as u32 && c as u32 <= 'f' as u32 {
        c as u32 - 'a' as u32 + 10
    } else {
        c as u32 - 'A' as u32 + 10
    }
}

/// `s` is an even number of hexadecimal digits.
pub open spec fn is_hex_text(s: Seq<char>) -> bool {
    &&& s.len() % 2 == 0
    &&& forall|i: int| 0 <= i < s.len() ==> is_hex_digit(#[trigger] s[i])
}

/// The bytes that the hexadecimal text `s` spells, two digits per byte,
/// high digit first.
pub open spec fn hex_text_bytes(s: Seq<char>) -> Seq<u8> {
    Seq::new(
        s.len() / 2,
        |i: int| (16 * hex_digit_value(s[2 * i]) + hex_digit_value(s[2 * i + 1])) as u8,
    )
}

/// `s` with every occurrence of `0x` taken out, scanning left to right
/// (what `str::replace(s, "0x", "")` gives).
pub open spec fn remove_0x(s: Seq<char>) -> Seq<char>
    decreases s.len(),
{
    if s.len() == 0 {
        s
    } else if s.len() >= 2 && s[0] == '0' && s[1] == 'x' {
        remove_0x(s.skip(2))
    } else {
        seq![s[0]] + remove_0x(s.skip(1))
    }
}

/// A leading `0x` does not change what a text decodes to, and the bytes
/// are half as many as the digits.
pub proof fn lemma_hex_prefix_ignored(s: Seq<char>)
    ensures
        remove_0x(seq!['0', 'x'] + s) == remove_0x(s),
        is_hex_text(remove_0x(s)) ==> hex_text_bytes(remove_0x(s)).len() * 2 == remove_0x(
            s,
        ).len(),
{
    let p = seq!['0', 'x'] + s;
    assert(p.skip(2) =~= s);
}

/// The lower-case hexadecimal digits, by value.
pub open spec fn lower_hex_digits() -> Seq<char> {
    seq!['0', '1', '2', '3', '4', '5', '6', '7', '8', '9', 'a', 'b', 'c', 'd', 'e', 'f']
}

/// The lower-case hexadecimal text of `bytes`, two digits per byte, high
/// digit first (what `hex::encode` writes).
pub open spec fn hex_encode(bytes: Seq<u8>) -> Seq<char> {
    Seq::new(
        2 * bytes.len(),
        |i: int|
            if i % 2 == 0 {
                lower_hex_digits()[(bytes[i / 2] / 16) as int]
            } else {
                lower_hex_digits()[(bytes[i / 2] % 16) as int]
            },
    )
}

proof fn lemma_lower_hex_digit(v: int)
    requires
        0 <= v < 16,
    ensures
        is_hex_digit(lower_hex_digits()[v]),
        hex_digit_value(lower_hex_digits()[v]) == v,
{
    let d = lower_hex_digits();
    if v == 0 { assert(d[0] == '0'); }
    else if v == 1 { assert(d[1] == '1'); }
    else if v == 2 { assert(d[2] == '2'); }
    else if v == 3 { assert(d[3] == '3'); }
    else if v == 4 { assert(d[4] == '4'); }
    else if v == 5 { assert(d[5] == '5'); }
    else if v == 6 { assert(d[6] == '6'); }
    else if v == 7 { assert(d[7] == '7'); }
    else if v == 8 { assert(d[8] == '8'); }
    else if v == 9 { assert(d[9] == '9'); }
    else if v == 10 { assert(d[10] == 'a'); }
    else if v == 11 { assert(d[11] == 'b'); }
    else if v == 12 { assert(d[12] == 'c'); }
    else if v == 13 { assert(d[13] == 'd'); }
    else if v == 14 { assert(d[14] == 'e'); }
    else { assert(d[15] == 'f'); }
}

/// A text with no `x` loses nothing to the removal of `0x`.
pub proof fn lemma_remove_0x_without_x(s: Seq<char>)
    requires
        forall|i: int| 0 <= i < s.len() ==> s[i] != 'x',
    ensures
        remove_0x(s) == s,
    decreases s.len(),
{
    if s.len() > 0 {
        lemma_remove_0x_without_x(s.skip(1));
        assert(seq![s[0]] + s.skip(1) =~= s);
    }
}

/// Decoding undoes hex encoding, with or without a leading `0x`: the
/// hexadecimal text of any bytes decodes to those bytes.
pub proof fn lemma_hex_round_trip(bytes: Seq<u8>)
    ensures
        is_hex_text(remove_0x(hex_encode(bytes))),
        hex_text_bytes(remove_0x(hex_encode(bytes))) == bytes,
        remove_0x(seq!['0', 'x'] + hex_encode(bytes)) == remove_0x(hex_encode(bytes)),
{
    let e = hex_encode(bytes);
    assert forall|i: int| 0 <= i < e.len() implies is_hex_digit(#[trigger] e[i]) && e[i] != 'x' by {
        let b = bytes[i / 2];
        let v: int = if i % 2 == 0 { (b / 16) as int } else { (b % 16) as int };
        lemma_lower_hex_digit(v);
    }
    lemma_remove_0x_without_x(e);
    lemma_hex_prefix_ignored(e);
    assert forall|k: int| 0 <= k < bytes.len() implies #[trigger] hex_text_bytes(e)[k] == bytes[k] by {
        let b = bytes[k];
        let hi: int = (b / 16) as int;
        let lo: int = (b % 16) as int;
        lemma_lower_hex_digit(hi);
        lemma_lower_hex_digit(lo);
        assert(e[2 * k] == lower_hex_digits()[hi]);
        assert(e[2 * k + 1] == lower_hex_digits()[lo]);
        assert(16 * hi + lo == b);
    }
    assert(hex_text_bytes(e) =~= bytes);
}

#[verifier::external_type_specification]
#[verifier::external_body]
pub struct ExFromHexError(hex::FromHexError);

/// `hex::decode`: succeeds exactly on an even number of hexadecimal digits
/// (either case) and yields one byte per pair of digits, high digit first.
/// The source works on the UTF-8 bytes of the text; a text that holds a
/// character other than a hexadecimal digit holds a byte that is not one,
/// so the statement over characters is the same.
#[verifier::external_body]
fn hex_decode(text: &str) -> (res: Result<Vec<u8>, hex::FromHexError>)
    ensures
        res is Ok <==> is_hex_text(text@),
        res matches Ok(bytes) ==> bytes@ == hex_text_bytes(text@),
{
    hex::decode(text)
}

/// `String::from_iter` over characters: the string of exactly these characters.
#[verifier::external_body]
pub(crate) fn string_from_chars(chars: &Vec<char>) -> (s: String)
    ensures
        s@ == chars@,
{
    chars.iter().collect()
}

/// Why building the local ENR failed.
#[derive(Debug)]
pub enum EnrSetupError {
    /// A value was not hexadecimal text.
    InvalidHex,
    /// The node's ENR text did not parse; the parser's message.
    InvalidEnr(String),
    /// The node's ENR carries no `eth2` entry.
    MissingEth2,
    /// The new record could not be built and signed.
    Build,
}

/// `chars` with every `0x` taken out.
pub fn strip_0x(chars: &Vec<char>) -> (out: Vec<char>)
    ensures
        out@ == remove_0x(chars@),
{
    let n = chars.len();
    let mut out: Vec<char> = Vec::new();
    let mut i: usize = 0;
    assert(chars@.skip(0) =~= chars@);
    while i < n
        invariant
            i <= n,
            n == chars@.len(),
            out@ + remove_0x(chars@.skip(i as int)) == remove_0x(chars@),
        decreases n - i,
    {
        let ghost s = chars@.skip(i as int);
        if i + 1 < n && chars[i] == '0' && chars[i + 1] == 'x' {
            assert(s.skip(2) =~= chars@.skip(i + 2));
            i = i + 2;
        } else {
            assert(s.skip(1) =~= chars@.skip(i + 1));
            out.push(chars[i]);
            assert(out@ + remove_0x(chars@.skip(i + 1)) =~= out@.drop_last() + (seq![s[0]]
                + remove_0x(s.skip(1))));
            i = i + 1;
        }
    }
    assert(remove_0x(chars@.skip(n as int)) =~= Seq::<char>::empty());
    assert(out@ + Seq::<char>::empty() =~= out@);
    out
}

/// Decodes hexadecimal text, ignoring every `0x` in it.
pub fn decode_hex_value(hex_string: &str) -> (res: Result<Vec<u8>, EnrSetupError>)
    ensures
        match res {
            Ok(bytes) => is_hex_text(remove_0x(hex_string@)) && bytes@ == hex_text_bytes(
                remove_0x(hex_string@),
            ),
            Err(e) => !is_hex_text(remove_0x(hex_string@)) && e is InvalidHex,
        },
{
    let chars = chars_of(hex_string);
    let stripped = strip_0x(&chars);
    let text = string_from_chars(&stripped);
    match hex_decode(text.as_str()) {
        Ok(bytes) => Ok(bytes),
        Err(_) => Err(EnrSetupError::InvalidHex),
    }
}

/// What the node's identity endpoint answered, one entry per field that
/// the client reads: `data.peer_id`, `data.enr`, `data.p2p_addresses[0]`,
/// `data.discovery_addresses[0]`, `data.metadata.attnets` and
/// `data.metadata.syncnets`, each present only where the answer holds a
/// string there.
#[derive(Debug)]
pub struct IdentityFields {
    pub peer_id: Option<String>,
    pub enr: Option<String>,
    pub p2p_address: Option<String>,
    pub discovery_address: Option<String>,
    pub attnets: Option<String>,
    pub syncnets: Option<String>,
}

/// The local node's identity: peer id, ENR, p2p address, discovery address,
/// attnets and syncnets, in this order.
pub type LocalPeerInfo = (String, String, String, String, String, String);

/// Why the identity answer gave no identity: it was no JSON (the parser's
/// message), or the first field that is missing.
#[derive(Debug)]
pub enum PeerInfoError {
    InvalidJson(String),
    PeerIdNotFound,
    EnrNotFound,
    P2pAddressNotFound,
    DiscoveryAddressNotFound,
    AttnetsNotFound,
    SyncnetsNotFound,
}

/// Collects the local node's identity from the fields of the endpoint's
/// answer; fails on the first missing field, in the order of the result.
pub fn get_local_peer_info(fields: IdentityFields) -> (res: Result<LocalPeerInfo, PeerInfoError>)
    ensures
        fields.peer_id is None ==> res matches Err(PeerInfoError::PeerIdNotFound),
        fields.peer_id is Some && fields.enr is None ==> res matches Err(
            PeerInfoError::EnrNotFound,
        ),
        fields.peer_id is Some && fields.enr is Some && fields.p2p_address is None ==> res matches Err(
            PeerInfoError::P2pAddressNotFound,
        ),
        fields.peer_id is Some && fields.enr is Some && fields.p2p_address is Some
            && fields.discovery_address is None ==> res matches Err(
            PeerInfoError::DiscoveryAddressNotFound,
        ),
        fields.peer_id is Some && fields.enr is Some && fields.p2p_address is Some
            && fields.discovery_address is Some && fields.attnets is None ==> res matches Err(
            PeerInfoError::AttnetsNotFound,
        ),
        fields.peer_id is Some && fields.enr is Some && fields.p2p_address is Some
            && fields.discovery_address is Some && fields.attnets is Some && fields.syncnets is None
            ==> res matches Err(PeerInfoError::SyncnetsNotFound),
        res matches Ok(info) ==> {
            &&& fields.peer_id == Some(info.0)
            &&& fields.enr == Some(info.1)
            &&& fields.p2p_address == Some(info.2)
            &&& fields.discovery_address == Some(info.3)
            &&& fields.attnets == Some(info.4)
            &&& fields.syncnets == Some(info.5)
        },
        (fields.peer_id is Some && fields.enr is Some && fields.p2p_address is Some
            && fields.discovery_address is Some && fields.attnets is Some && fields.syncnets is Some)
            ==> res is Ok,
{
    let peer_id = match fields.peer_id {
        Some(v) => v,
        None => return Err(PeerInfoError::PeerIdNotFound),
    };
    let enr = match fields.enr {
        Some(v) => v,
        None => return Err(PeerInfoError::EnrNotFound),
    };
    let p2p_address = match fields.p2p_address {
        Some(v) => v,
        None => return Err(PeerInfoError::P2pAddressNotFound),
    };
    let discovery_address = match fields.discovery_address {
        Some(v) => v,
        None => return Err(PeerInfoError::DiscoveryAddressNotFound),
    };
    let attnets = match fields.attnets {
        Some(v) => v,
        None => return Err(PeerInfoError::AttnetsNotFound),
    };
    let syncnets = match fields.syncnets {
        Some(v) => v,
        None => return Err(PeerInfoError::SyncnetsNotFound),
    };
    Ok((peer_id, enr, p2p_address, discovery_address, attnets, syncnets))
}

/// The IPv4 address the new record announces: 0.0.0.0.
pub open spec fn enr_ip4() -> Seq<u8> {
    seq![0u8, 0u8, 0u8, 0u8]
}

/// The TCP and UDP port the new record announces.
pub const ENR_PORT: u16 = 7777;

/// The content of the record that the client signs for itself.
#[derive(Debug)]
pub struct EnrFields {
    pub ip4: [u8; 4],
    pub tcp4: u16,
    pub udp4: u16,
    pub syncnets: Vec<u8>,
    pub attnets: Vec<u8>,
    /// Raw RLP of the `eth2` entry.
    pub eth2: Vec<u8>,
}

/// How the content of the new record comes out of the node's syncnets and
/// attnets texts and of the debug text of its parsed ENR (or the parser's
/// message): the values are decoded in this order, and the first failure
/// decides.
pub enum EnrPlan {
    Fields { syncnets: Seq<u8>, attnets: Seq<u8>, eth2: Seq<u8> },
    InvalidHex,
    InvalidEnr(Seq<char>),
    MissingEth2,
}

pub open spec fn spec_enr_plan(
    syncnets: Seq<char>,
    attnets: Seq<char>,
    enr_debug: Result<Seq<char>, Seq<char>>,
) -> EnrPlan {
    if !is_hex_text(remove_0x(syncnets)) {
        EnrPlan::InvalidHex
    } else if !is_hex_text(remove_0x(attnets)) {
        EnrPlan::InvalidHex
    } else {
        match enr_debug {
            Err(m) => EnrPlan::InvalidEnr(m),
            Ok(d) => match spec_eth2_value(d) {
                None => EnrPlan::MissingEth2,
                Some(v) => if !is_hex_text(remove_0x(v)) {
                    EnrPlan::InvalidHex
                } else {
                    EnrPlan::Fields {
                        syncnets: hex_text_bytes(remove_0x(syncnets)),
                        attnets: hex_text_bytes(remove_0x(attnets)),
                        eth2: hex_text_bytes(remove_0x(v)),
                    }
                },
            },
        }
    }
}

/// `fields` is the record content that `plan` describes.
pub open spec fn fields_follow_plan(fields: EnrFields, plan: EnrPlan) -> bool {
    match plan {
        EnrPlan::Fields { syncnets, attnets, eth2 } => {
            &&& fields.ip4@ == enr_ip4()
            &&& fields.tcp4 == ENR_PORT
            &&& fields.udp4 == ENR_PORT
            &&& fields.syncnets@ == syncnets
            &&& fields.attnets@ == attnets
            &&& fields.eth2@ == eth2
        },
        _ => false,
    }
}

/// `e` is the failure that `plan` describes.
pub open spec fn error_follows_plan(e: EnrSetupError, plan: EnrPlan) -> bool {
    match plan {
        EnrPlan::InvalidHex => e is InvalidHex,
        EnrPlan::InvalidEnr(m) => e matches EnrSetupError::InvalidEnr(s) && s@ == m,
        EnrPlan::MissingEth2 => e is MissingEth2,
        EnrPlan::Fields { .. } => false,
    }
}

/// A text-or-message result, by the characters of each.
pub open spec fn text_result_view(r: Result<String, String>) -> Result<Seq<char>, Seq<char>> {
    match r {
        Ok(d) => Ok(d@),
        Err(m) => Err(m@),
    }
}

/// The content of the new record, from the node's syncnets and attnets and
/// from the debug text of its parsed ENR (or the parser's message).
pub fn enr_fields(syncnets: &str, attnets: &str, enr_debug: Result<String, String>) -> (res: Result<
    EnrFields,
    EnrSetupError,
>)
    ensures
        match res {
            Ok(f) => fields_follow_plan(
                f,
                spec_enr_plan(syncnets@, attnets@, text_result_view(enr_debug)),
            ),
            Err(e) => error_follows_plan(
                e,
                spec_enr_plan(syncnets@, attnets@, text_result_view(enr_debug)),
            ),
        },
{
    let syncnets_bytes = decode_hex_value(syncnets)?;
    let attnets_bytes = decode_hex_value(attnets)?;
    let debug = match enr_debug {
        Ok(d) => d,
        Err(m) => return Err(EnrSetupError::InvalidEnr(m)),
    };
    let eth2_value = match get_eth2_value(debug.as_str()) {
        Some(v) => v,
        None => return Err(EnrSetupError::MissingEth2),
    };
    let eth2_bytes = decode_hex_value(eth2_value.as_str())?;
    Ok(
        EnrFields {
            ip4: [0u8, 0u8, 0u8, 0u8],
            tcp4: ENR_PORT,
            udp4: ENR_PORT,
            syncnets: syncnets_bytes,
            attnets: attnets_bytes,
            eth2: eth2_bytes,
        },
    )
}

#[verifier::external_type_specification]
#[verifier::external_body]
pub struct ExEnrBuildError(discv5::enr::EnrError);

/// What `Enr::<CombinedKey>::from_str` makes of an ENR text: the `Debug`
/// text of the parsed record, or the parser's message.
pub uninterp spec fn enr_debug_text(text: Seq<char>) -> Result<Seq<char>, Seq<char>>;

/// `Enr::from_str` on the ENR text, followed by the record's `Debug`
/// formatting: both depend on the text alone, and the contract names the
/// outcome without describing it.
#[verifier::external_body]
fn parse_enr_debug(text: &str) -> (res: Result<String, String>)
    ensures
        text_result_view(res) == enr_debug_text(text@),
{
    match discv5::Enr::from_str(text) {
        Ok(enr) => Ok(format!("{:?}", enr)),
        Err(message) => Err(message),
    }
}

/// Whether `EnrBuilder::build` succeeds on a `v4` record with these
/// entries and a secp256k1 key: every value must be well-formed RLP and the
/// signed record must fit in 300 bytes. The compressed public key and the
/// signature have fixed sizes, so this depends on the entries alone.
pub uninterp spec fn enr_fits(
    ip4: Seq<u8>,
    tcp4: u16,
    udp4: u16,
    syncnets: Seq<u8>,
    attnets: Seq<u8>,
    eth2: Seq<u8>,
) -> bool;

/// What a record text reads back as (`Enr::from_str`, which checks the
/// signature): the bytes of its `id` entry, its `ip` octets, `tcp` and
/// `udp` ports, the byte strings of its `syncnets` and `attnets` entries
/// and the raw RLP of its `eth2` entry; none when the text is no validly
/// signed record.
pub uninterp spec fn enr_text_content(text: Seq<char>) -> Option<
    (Seq<u8>, Seq<u8>, u16, u16, Seq<u8>, Seq<u8>, Seq<u8>),
>;

/// The public key that a record text carries under `secp256k1` (the key
/// that signed it), compressed; none when the text is no validly signed
/// record with such a key.
pub uninterp spec fn enr_text_public_key(text: Seq<char>) -> Option<Seq<u8>>;

/// The compressed secp256k1 public key of a secret key.
pub uninterp spec fn secp256k1_public_key(secret: Seq<u8>) -> Seq<u8>;

/// The `id` entry of a `v4` record: the bytes of `v4`.
pub open spec fn v4_id() -> Seq<u8> {
    seq![118u8, 52u8]
}

/// `CombinedKey::generate_secp256k1`, then `EnrBuilder::build` on a `v4`
/// builder holding `fields` (ip, tcp and udp entries, `syncnets` and
/// `attnets` as RLP byte strings, `eth2` as raw RLP) signed with that key,
/// then `Enr::to_base64` and `CombinedKey::encode` (the 32 secret bytes).
/// The key is random; whether the build succeeds depends on the entries
/// alone. The text starts with `enr:`, reads back as a `v4` record with
/// exactly these entries, and carries the public key of the secret bytes
/// returned beside it.
#[verifier::external_body]
fn build_enr_with_new_key(fields: &EnrFields) -> (res: Result<(String, Vec<u8>), discv5::enr::EnrError>)
    ensures
        res is Ok <==> enr_fits(
            fields.ip4@,
            fields.tcp4,
            fields.udp4,
            fields.syncnets@,
            fields.attnets@,
            fields.eth2@,
        ),
        res matches Ok((text, secret)) ==> {
            &&& text@.len() >= 4
            &&& text@.subrange(0, 4) == "enr:"@
            &&& enr_text_content(text@) == Some(
                (
                    v4_id(),
                    fields.ip4@,
                    fields.tcp4,
                    fields.udp4,
                    fields.syncnets@,
                    fields.attnets@,
                    fields.eth2@,
                ),
            )
            &&& secret@.len() == 32
            &&& enr_text_public_key(text@) == Some(secp256k1_public_key(secret@))
        },
{
    let key = CombinedKey::generate_secp256k1();
    let built: Result<Enr<CombinedKey>, discv5::enr::EnrError> = EnrBuilder::new("v4").ip4(
        fields.ip4.into(),
    ).tcp4(fields.tcp4).udp4(fields.udp4).add_value("syncnets", &fields.syncnets).add_value(
        "attnets",
        &fields.attnets,
    ).add_value_rlp("eth2", fields.eth2.clone().into()).build(&key);
    match built {
        Ok(enr) => Ok((enr.to_base64(), key.encode())),
        Err(e) => Err(e),
    }
}

/// Builds and signs a fresh record for the local node from its identity:
/// ip 0.0.0.0, tcp and udp port 7777, the node's syncnets and attnets, and
/// the `eth2` entry of its ENR, signed with a new random key. Fails as
/// `enr_fields` does, or when those entries do not fit in a record. The
/// record comes back in its text form (`enr:` and base64), with the 32
/// secret bytes of the secp256k1 key that signed it
/// (`CombinedKey::secp256k1_from_bytes` turns them back into the key).
pub fn generate_enr(peer_info: &LocalPeerInfo) -> (res: Result<(String, Vec<u8>), EnrSetupError>)
    ensures
        match spec_enr_plan(peer_info.5@, peer_info.4@, enr_debug_text(peer_info.1@)) {
            EnrPlan::Fields { syncnets, attnets, eth2 } => match res {
                Ok((text, secret)) => {
                    &&& enr_fits(enr_ip4(), ENR_PORT, ENR_PORT, syncnets, attnets, eth2)
                    &&& text@.len() >= 4
                    &&& text@.subrange(0, 4) == "enr:"@
                    &&& enr_text_content(text@) == Some(
                        (v4_id(), enr_ip4(), ENR_PORT, ENR_PORT, syncnets, attnets, eth2),
                    )
                    &&& secret@.len() == 32
                    &&& enr_text_public_key(text@) == Some(secp256k1_public_key(secret@))
                },
                Err(e) => {
                    &&& e is Build
                    &&& !enr_fits(enr_ip4(), ENR_PORT, ENR_PORT, syncnets, attnets, eth2)
                },
            },
            plan => res matches Err(e) && error_follows_plan(e, plan),
        },
{
    let debug = parse_enr_debug(peer_info.1.as_str());
    let fields = enr_fields(peer_info.5.as_str(), peer_info.4.as_str(), debug)?;
    match build_enr_with_new_key(&fields) {
        Ok((text, secret)) => Ok((text, secret)),
        Err(_) => Err(EnrSetupError::Build),
    }
}

/// The six identity fields by their characters.
pub type IdentityView = (
    Option<Seq<char>>,
    Option<Seq<char>>,
    Option<Seq<char>>,
    Option<Seq<char>>,
    Option<Seq<char>>,
    Option<Seq<char>>,
);

/// The local node's identity by its characters.
pub type LocalPeerInfoView = (Seq<char>, Seq<char>, Seq<char>, Seq<char>, Seq<char>, Seq<char>);

pub open spec fn text_option_view(o: Option<String>) -> Option<Seq<char>> {
    match o {
        Some(s) => Some(s@),
        None => None,
    }
}

pub open spec fn identity_fields_view(f: IdentityFields) -> IdentityView {
    (
        text_option_view(f.peer_id),
        text_option_view(f.enr),
        text_option_view(f.p2p_address),
        text_option_view(f.discovery_address),
        text_option_view(f.attnets),
        text_option_view(f.syncnets),
    )
}

pub open spec fn local_peer_info_view(i: LocalPeerInfo) -> LocalPeerInfoView {
    (i.0@, i.1@, i.2@, i.3@, i.4@, i.5@)
}

/// The identity that the six fields give, or the first missing one.
pub open spec fn spec_local_peer_info(v: IdentityView) -> Result<LocalPeerInfoView, PeerInfoError> {
    match (v.0, v.1, v.2, v.3, v.4, v.5) {
        (None, _, _, _, _, _) => Err(PeerInfoError::PeerIdNotFound),
        (Some(_), None, _, _, _, _) => Err(PeerInfoError::EnrNotFound),
        (Some(_), Some(_), None, _, _, _) => Err(PeerInfoError::P2pAddressNotFound),
        (Some(_), Some(_), Some(_), None, _, _) => Err(PeerInfoError::DiscoveryAddressNotFound),
        (Some(_), Some(_), Some(_), Some(_), None, _) => Err(PeerInfoError::AttnetsNotFound),
        (Some(_), Some(_), Some(_), Some(_), Some(_), None) => Err(PeerInfoError::SyncnetsNotFound),
        (Some(a), Some(b), Some(c), Some(d), Some(e), Some(f)) => Ok((a, b, c, d, e, f)),
    }
}

/// What `serde_json::from_str` makes of `body`, read by `Index` along the
/// object members `keys` and then, when `index` is given, at that array
/// position: the string that stands there, if one does; or the parser's
/// message.
pub uninterp spec fn json_string_at(body: Seq<char>, keys: Seq<Seq<char>>, index: Option<usize>) -> Result<
    Option<Seq<char>>,
    Seq<char>,
>;

/// A string-or-absent result, or a message, by characters.
pub open spec fn json_result_view(r: Result<Option<String>, String>) -> Result<Option<Seq<char>>, Seq<char>> {
    match r {
        Ok(v) => Ok(text_option_view(v)),
        Err(m) => Err(m@),
    }
}

/// The member names, by characters.
pub open spec fn keys_view(keys: Seq<&str>) -> Seq<Seq<char>> {
    keys.map_values(|k: &str| k@)
}

/// `serde_json::from_str` into a `Value`, `Index` by each key and then by
/// the position, and `Value::as_str`; the outcome depends on the arguments
/// alone.
#[verifier::external_body]
fn json_str_at(body: &str, keys: &Vec<&str>, index: Option<usize>) -> (res: Result<Option<String>, String>)
    ensures
        json_result_view(res) == json_string_at(body@, keys_view(keys@), index),
{
    match serde_json::from_str::<serde_json::Value>(body) {
        Ok(json) => {
            let mut v = &json;
            for k in keys {
                v = &v[*k];
            }
            if let Some(i) = index {
                v = &v[i];
            }
            Ok(v.as_str().map(String::from))
        },
        Err(e) => Err(e.to_string()),
    }
}

/// Where the identity answer holds each field: `data.peer_id`,
/// `data.enr`, `data.p2p_addresses[0]`, `data.discovery_addresses[0]`,
/// `data.metadata.attnets` and `data.metadata.syncnets`.
pub open spec fn identity_field_at(body: Seq<char>, field: int) -> Result<Option<Seq<char>>, Seq<char>> {
    if field == 0 {
        json_string_at(body, seq!["data"@, "peer_id"@], None)
    } else if field == 1 {
        json_string_at(body, seq!["data"@, "enr"@], None)
    } else if field == 2 {
        json_string_at(body, seq!["data"@, "p2p_addresses"@], Some(0usize))
    } else if field == 3 {
        json_string_at(body, seq!["data"@, "discovery_addresses"@], Some(0usize))
    } else if field == 4 {
        json_string_at(body, seq!["data"@, "metadata"@, "attnets"@], None)
    } else {
        json_string_at(body, seq!["data"@, "metadata"@, "syncnets"@], None)
    }
}

/// The six fields of the identity answer, read in order; the parser's
/// message at the first read that fails.
pub open spec fn identity_json(body: Seq<char>) -> Result<IdentityView, Seq<char>> {
    match (
        identity_field_at(body, 0),
        identity_field_at(body, 1),
        identity_field_at(body, 2),
        identity_field_at(body, 3),
        identity_field_at(body, 4),
        identity_field_at(body, 5),
    ) {
        (Err(m), _, _, _, _, _) => Err(m),
        (Ok(_), Err(m), _, _, _, _) => Err(m),
        (Ok(_), Ok(_), Err(m), _, _, _) => Err(m),
        (Ok(_), Ok(_), Ok(_), Err(m), _, _) => Err(m),
        (Ok(_), Ok(_), Ok(_), Ok(_), Err(m), _) => Err(m),
        (Ok(_), Ok(_), Ok(_), Ok(_), Ok(_), Err(m)) => Err(m),
        (Ok(a), Ok(b), Ok(c), Ok(d), Ok(e), Ok(f)) => Ok((a, b, c, d, e, f)),
    }
}

/// Reads one string of the identity answer.
fn identity_field(body: &str, keys: Vec<&str>, index: Option<usize>, Ghost(field): Ghost<int>) -> (res: Result<Option<String>, String>)
    requires
        keys_view(keys@) == (if field == 0 {
            seq!["data"@, "peer_id"@]
        } else if field == 1 {
            seq!["data"@, "enr"@]
        } else if field == 2 {
            seq!["data"@, "p2p_addresses"@]
        } else if field == 3 {
            seq!["data"@, "discovery_addresses"@]
        } else if field == 4 {
            seq!["data"@, "metadata"@, "attnets"@]
        } else {
            seq!["data"@, "metadata"@, "syncnets"@]
        }),
        index == (if field == 2 || field == 3 { Some(0usize) } else { None }),
    ensures
        json_result_view(res) == identity_field_at(body@, field),
{
    json_str_at(body, &keys, index)
}

/// The local node's identity from the text of the identity endpoint's
/// answer: the parser's message when it is no JSON, else as
/// `get_local_peer_info` on the six fields.
pub fn local_peer_info_from_body(body: &str) -> (res: Result<LocalPeerInfo, PeerInfoError>)
    ensures
        match identity_json(body@) {
            Err(m) => res matches Err(PeerInfoError::InvalidJson(s)) && s@ == m,
            Ok(v) => match (res, spec_local_peer_info(v)) {
                (Ok(info), Ok(w)) => local_peer_info_view(info) == w,
                (Err(e), Err(f)) => e == f,
                _ => false,
            },
        },
{
    let k0 = vec!["data", "peer_id"];
    assert(keys_view(k0@) =~= seq!["data"@, "peer_id"@]);
    let peer_id = match identity_field(body, k0, None, Ghost(0)) {
        Ok(v) => v,
        Err(m) => return Err(PeerInfoError::InvalidJson(m)),
    };
    let k1 = vec!["data", "enr"];
    assert(keys_view(k1@) =~= seq!["data"@, "enr"@]);
    let enr = match identity_field(body, k1, None, Ghost(1)) {
        Ok(v) => v,
        Err(m) => return Err(PeerInfoError::InvalidJson(m)),
    };
    let k2 = vec!["data", "p2p_addresses"];
    assert(keys_view(k2@) =~= seq!["data"@, "p2p_addresses"@]);
    let p2p_address = match identity_field(body, k2, Some(0), Ghost(2)) {
        Ok(v) => v,
        Err(m) => return Err(PeerInfoError::InvalidJson(m)),
    };
    let k3 = vec!["data", "discovery_addresses"];
    assert(keys_view(k3@) =~= seq!["data"@, "discovery_addresses"@]);
    let discovery_address = match identity_field(body, k3, Some(0), Ghost(3)) {
        Ok(v) => v,
        Err(m) => return Err(PeerInfoError::InvalidJson(m)),
    };
    let k4 = vec!["data", "metadata", "attnets"];
    assert(keys_view(k4@) =~= seq!["data"@, "metadata"@, "attnets"@]);
    let attnets = match identity_field(body, k4, None, Ghost(4)) {
        Ok(v) => v,
        Err(m) => return Err(PeerInfoError::InvalidJson(m)),
    };
    let k5 = vec!["data", "metadata", "syncnets"];
    assert(keys_view(k5@) =~= seq!["data"@, "metadata"@, "syncnets"@]);
    let syncnets = match identity_field(body, k5, None, Ghost(5)) {
        Ok(v) => v,
        Err(m) => return Err(PeerInfoError::InvalidJson(m)),
    };
    let fields = IdentityFields { peer_id, enr, p2p_address, discovery_address, attnets, syncnets };
    get_local_peer_info(fields)
}

} // verus!
