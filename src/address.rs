use vstd::prelude::*;

verus! {

/// True for the characters `0-9`, `a-f` and `A-F`.
pub open spec fn is_hex_char(c: char) -> bool {
    ('0' <= c && c <= '9') || ('a' <= c && c <= 'f') || ('A' <= c && c <= 'F')
}

/// The value of a hexadecimal digit.
pub open spec fn hex_char_value(c: char) -> int {
    if '0' <= c && c <= '9' {
        c as int - '0' as int
    } else if 'a' <= c && c <= 'f' {
        c as int - 'a' as int + 10
    } else {
        c as int - 'A' as int + 10
    }
}

/// A two-character chunk of an address text that reads as one byte: two hex
/// digits, or a `+` sign followed by one hex digit.
pub open spec fn byte_chunk_ok(a: char, b: char) -> bool {
    is_hex_char(b) && (is_hex_char(a) || a == '+')
}

pub open spec fn byte_chunk_value(a: char, b: char) -> int {
    if a == '+' {
        hex_char_value(b)
    } else {
        16 * hex_char_value(a) + hex_char_value(b)
    }
}

/// The text with one leading `0x` removed, if there is one.
pub open spec fn strip_hex_prefix(s: Seq<char>) -> Seq<char> {
    if s.len() >= 2 && s[0] == '0' && s[1] == 'x' {
        s.subrange(2, s.len() as int)
    } else {
        s
    }
}

/// The 20 bytes that an Ethereum address text denotes, or `None` when it is
/// malformed. The empty text denotes the zero address.
pub open spec fn eth_address_parse(s: Seq<char>) -> Option<Seq<u8>> {
    if s.len() == 0 {
        Some(Seq::new(20, |i: int| 0u8))
    } else {
        let h = strip_hex_prefix(s);
        if h.len() == 40 && (forall|i: int| 0 <= i < 20 ==> byte_chunk_ok(#[trigger] h[2 * i], h[2 * i + 1])) {
            Some(Seq::new(20, |i: int| byte_chunk_value(h[2 * i], h[2 * i + 1]) as u8))
        } else {
            None
        }
    }
}

/// The lower-case hex digit for a value below 16.
pub open spec fn hex_digit(n: int) -> char {
    if n < 10 {
        (n + '0' as int) as char
    } else {
        (n - 10 + 'a' as int) as char
    }
}

/// The canonical text of an address: `0x` and two lower-case hex digits per byte.
pub open spec fn eth_address_text(b: Seq<u8>) -> Seq<char> {
    seq!['0', 'x'] + Seq::new(2 * b.len(), |i: int|
        if i % 2 == 0 { hex_digit(b[i / 2] as int / 16) } else { hex_digit(b[i / 2] as int % 16) })
}

/// An Ethereum address: 20 bytes.
#[derive(Clone, Debug)]
pub struct EthAddress {
    pub bytes: Vec<u8>,
}

impl EthAddress {
    pub open spec fn wf(&self) -> bool {
        self.bytes@.len() == 20
    }
}

/// Relies on `clarity::Address::from_str`: the empty text gives the zero
/// address; otherwise one leading `0x` is dropped, the rest must be 40 bytes
/// long, and each two-byte chunk is read by `u8::from_str_radix(_, 16)`.
#[verifier::external_body]
fn clarity_parse_address(s: &str) -> (r: Option<Vec<u8>>)
    ensures
        match r {
            Some(v) => eth_address_parse(s@) == Some(v@),
            None => eth_address_parse(s@) is None,
        },
{
    match s.parse::<clarity::Address>() {
        Ok(a) => Some(a.as_bytes().to_vec()),
        Err(_) => None,
    }
}

/// Parses the text form of an Ethereum address.
pub fn parse_eth_address(s: &str) -> (r: Option<EthAddress>)
    ensures
        match r {
            Some(a) => a.wf() && eth_address_parse(s@) == Some(a.bytes@),
            None => eth_address_parse(s@) is None,
        },
{
    match clarity_parse_address(s) {
        Some(v) => Some(EthAddress { bytes: v }),
        None => None,
    }
}

/// Relies on `clarity::Signature::from_bytes`: it accepts exactly the byte
/// strings of length 65 (`r`, `s`, then `v`).
#[verifier::external_body]
fn clarity_signature_ok(b: &[u8]) -> (r: bool)
    ensures
        r == (b@.len() == 65),
{
    clarity::Signature::from_bytes(b).is_ok()
}

/// An Ethereum signature: 65 bytes, `r`, `s` and `v`.
#[derive(Clone, Debug)]
pub struct EthSignature {
    pub bytes: Vec<u8>,
}

impl EthSignature {
    pub open spec fn wf(&self) -> bool {
        self.bytes@.len() == 65
    }
}

/// Checks the wire form of a signature and takes it over.
pub fn parse_eth_signature(b: Vec<u8>) -> (r: Option<EthSignature>)
    ensures
        match r {
            Some(sig) => b@.len() == 65 && sig.bytes@ == b@,
            None => b@.len() != 65,
        },
{
    if clarity_signature_ok(b.as_slice()) {
        Some(EthSignature { bytes: b })
    } else {
        None
    }
}

/// The text that `deep_space` prints for the Cosmos address that
/// `deep_space::Address::from_str` reads from `s` (bech32, or hex of a 20 or
/// 32 byte address), or `None` when it reads none.
pub uninterp spec fn cosmos_address_normal(s: Seq<char>) -> Option<Seq<char>>;

/// The text is a Cosmos address.
pub open spec fn cosmos_address_accepts(s: Seq<char>) -> bool {
    cosmos_address_normal(s) is Some
}

/// Relies on `deep_space::Address::from_str` to read a Cosmos address and on
/// its `Display` to print it back in bech32.
#[verifier::external_body]
fn deep_space_normalize(s: &str) -> (r: Option<String>)
    ensures
        match r {
            Some(t) => cosmos_address_normal(s@) == Some(t@),
            None => cosmos_address_normal(s@) is None,
        },
{
    match s.parse::<deep_space::Address>() {
        Ok(a) => Some(a.to_string()),
        Err(_) => None,
    }
}

/// The bech32 text of the Cosmos address that `s` denotes, or `None` when it
/// denotes none.
pub fn normalize_cosmos_address(s: &str) -> (r: Option<String>)
    ensures
        match r {
            Some(t) => cosmos_address_normal(s@) == Some(t@),
            None => cosmos_address_normal(s@) is None,
        },
{
    deep_space_normalize(s)
}

/// The EIP-55 text (`0x` and mixed-case hex) that `clarity` prints for the
/// address of these 20 bytes.
pub uninterp spec fn eth_address_display(b: Seq<u8>) -> Seq<char>;

/// Relies on `clarity::Address::from_slice`, which takes any 20 bytes, and on
/// its `Display`, which prints `0x` and 40 hex digits.
#[verifier::external_body]
fn clarity_display_address(b: &[u8]) -> (r: String)
    requires
        b@.len() == 20,
    ensures
        r@ == eth_address_display(b@),
        r@.len() == 42,
{
    clarity::Address::from_slice(b).unwrap().to_string()
}

impl EthAddress {
    /// The EIP-55 text of the address.
    pub fn to_text(&self) -> (r: String)
        requires
            self.wf(),
        ensures
            r@ == eth_address_display(self.bytes@),
    {
        clarity_display_address(self.bytes.as_slice())
    }
}

/// Whether `clarity::Uint256::from_str` accepts the text as an amount
/// (decimal, or hex after `0x`, below 2^256).
pub uninterp spec fn uint256_accepts(s: Seq<char>) -> bool;

/// Relies on `clarity::Uint256::from_str`, for whether the text is an amount.
#[verifier::external_body]
fn clarity_amount_ok(s: &str) -> (r: bool)
    ensures
        r == uint256_accepts(s@),
{
    s.parse::<clarity::Uint256>().is_ok()
}

/// Whether the text is a 256-bit unsigned amount.
pub fn is_uint256(s: &str) -> (r: bool)
    ensures
        r == uint256_accepts(s@),
{
    clarity_amount_ok(s)
}

} // verus!
