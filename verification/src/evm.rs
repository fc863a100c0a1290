use vstd::prelude::*;
use crate::uuid_text::{append_hex_digit, hex_char, hex_digit_value, hex_val, is_hex_digit};
use web3::signing::Key;

verus! {

/// What the EVM signing library computes from a hex-encoded secp256k1 secret
/// key: the twenty-byte account address of the corresponding public key.
pub uninterp spec fn evm_address_of(key_hex: Seq<char>) -> Seq<u8>;

// The EVM-side text forms: a recipient or contract address arrives as an
// optionally 0x-prefixed run of forty hexadecimal digits, and a confirmed
// transaction hash leaves as "0x" followed by the sixty-four lower-case
// digits of its thirty-two bytes.

/// `s` with an initial "0x" removed; `s` itself when the prefix is absent.
pub open spec fn strip_0x(s: Seq<char>) -> Seq<char> {
    if s.len() >= 2 && s[0] == '0' && s[1] == 'x' {
        s.skip(2)
    } else {
        s
    }
}

/// Well-formed EVM address text: an optional "0x", then exactly forty
/// hexadecimal digits of either case.
pub open spec fn is_evm_address_text(s: Seq<char>) -> bool {
    strip_0x(s).len() == 40 && (forall|i: int|
        0 <= i < 40 ==> is_hex_digit(#[trigger] strip_0x(s)[i]))
}

/// The bytes denoted by an even-length run of hexadecimal digits, the first
/// digit of each pair most significant.
pub open spec fn hex_bytes(h: Seq<char>) -> Seq<u8> {
    Seq::new(h.len() / 2, |j: int| (hex_val(h[2 * j]) * 16 + hex_val(h[2 * j + 1])) as u8)
}

/// The lower-case hexadecimal text of a run of bytes, two digits per byte.
pub open spec fn hex_str_of(b: Seq<u8>) -> Seq<char> {
    Seq::new(
        b.len() * 2,
        |i: int|
            if i % 2 == 0 {
                hex_char(b[i / 2] as int / 16)
            } else {
                hex_char(b[i / 2] as int % 16)
            },
    )
}

/// Parse EVM address text into its twenty bytes. Exactly the well-formed
/// texts are accepted; anything else is reported malformed, as the address
/// parser of the EVM client library reports it.
pub fn parse_evm_address(s: &str) -> (r: Option<Vec<u8>>)
    ensures
        r matches Some(b) ==> is_evm_address_text(s@) && b@ == hex_bytes(strip_0x(s@))
            && b@.len() == 20,
        r is None ==> !is_evm_address_text(s@),
{
    let n = s.unicode_len();
    let off: usize = if n >= 2 && s.get_char(0) == '0' && s.get_char(1) == 'x' {
        2
    } else {
        0
    };
    proof {
        assert(strip_0x(s@) =~= s@.skip(off as int));
    }
    if n - off != 40 {
        return None;
    }
    let mut bytes: Vec<u8> = Vec::new();
    let mut j: usize = 0;
    while j < 20
        invariant
            s@.len() == n,
            off == 0 || off == 2,
            n - off == 40,
            strip_0x(s@) =~= s@.skip(off as int),
            j <= 20,
            bytes@.len() == j,
            forall|t: int| 0 <= t < 2 * j ==> is_hex_digit(#[trigger] strip_0x(s@)[t]),
            forall|t: int| 0 <= t < j ==> bytes@[t] == hex_bytes(strip_0x(s@))[t],
        decreases 20 - j,
    {
        let hi = match hex_digit_value(s.get_char(off + 2 * j)) {
            Some(v) => v,
            None => {
                proof {
                    assert(strip_0x(s@)[2 * j as int] == s@[off + 2 * j as int]);
                }
                return None;
            },
        };
        let lo = match hex_digit_value(s.get_char(off + 2 * j + 1)) {
            Some(v) => v,
            None => {
                proof {
                    assert(strip_0x(s@)[2 * j as int + 1] == s@[off + 2 * j as int + 1]);
                }
                return None;
            },
        };
        bytes.push(hi * 16 + lo);
        proof {
            assert(strip_0x(s@)[2 * j as int] == s@[off + 2 * j as int]);
            assert(strip_0x(s@)[2 * j as int + 1] == s@[off + 2 * j as int + 1]);
            assert(bytes@[j as int] == hex_bytes(strip_0x(s@))[j as int]);
        }
        j += 1;
    }
    proof {
        assert(bytes@ =~= hex_bytes(strip_0x(s@)));
    }
    Some(bytes)
}

/// The text form of a confirmed transaction hash: "0x" followed by the
/// sixty-four lower-case hexadecimal digits of its thirty-two bytes.
pub fn format_tx_hash(bytes: &Vec<u8>) -> (s: String)
    requires
        bytes@.len() == 32,
    ensures
        s@ == seq!['0', 'x'] + hex_str_of(bytes@),
        s@.len() == 66,
{
    let mut s = String::new();
    s.append("0x");
    proof {
        reveal_strlit("0x");
        assert(s@ =~= seq!['0', 'x'] + hex_str_of(bytes@).take(0));
    }
    let mut i: usize = 0;
    while i < 32
        invariant
            bytes@.len() == 32,
            i <= 32,
            s@ == seq!['0', 'x'] + hex_str_of(bytes@).take(2 * i),
        decreases 32 - i,
    {
        let b = bytes[i];
        append_hex_digit(&mut s, b / 16);
        append_hex_digit(&mut s, b % 16);
        proof {
            assert(s@ =~= seq!['0', 'x'] + hex_str_of(bytes@).take(2 * (i + 1)));
        }
        i += 1;
    }
    proof {
        assert(s@ =~= seq!['0', 'x'] + hex_str_of(bytes@));
    }
    s
}

/// The token id used for an NFT transfer: the explicitly requested id when
/// one is given, otherwise the store's current counter value.
pub fn choose_token_id(requested: Option<u32>, counter: u32) -> (r: u32)
    ensures
        r == match requested {
            Some(t) => t,
            None => counter,
        },
{
    match requested {
        Some(t) => t,
        None => counter,
    }
}

/// A sample recipient address, offered to documentation tooling.
pub fn example_address() -> (s: &'static str)
    ensures
        s@ == "0x5cf2273601FD25b8CA59d5d22966cD121c1BFafe"@,
{
    "0x5cf2273601FD25b8CA59d5d22966cD121c1BFafe"
}

/// An ERC-721 `transferFrom` call as the backend prepares it: the parsed
/// recipient address and the token id to move. The owner side is derived by
/// the caller from its signing key.
pub struct TransferNftCall {
    pub to: Vec<u8>,
    pub token_id: u32,
}

/// The order of the secp256k1 group: secret keys are the scalars strictly
/// between zero and this value.
pub open spec fn secp256k1_order() -> int {
    0xFFFFFFFFFFFFFFFFFFFFFFFFFFFFFFFEBAAEDCE6AF48A03BBFD25E8CD0364141int
}

/// The value of the first `k` characters of a run of hexadecimal digits,
/// most significant first.
pub open spec fn hex_digits_val(s: Seq<char>, k: int) -> int
    decreases k,
{
    if k <= 0 {
        0
    } else {
        hex_digits_val(s, k - 1) * 16 + hex_val(s[k - 1])
    }
}

/// Text that the signing key parser accepts: exactly sixty-four hexadecimal
/// digits of either case, whose 256-bit value is neither zero nor at or
/// above the secp256k1 group order.
pub open spec fn valid_secret_key_text(s: Seq<char>) -> bool {
    s.len() == 64 && (forall|i: int| 0 <= i < 64 ==> is_hex_digit(#[trigger] s[i])) && 0
        < hex_digits_val(s, 64) < secp256k1_order()
}

/// Relies on secp256k1::SecretKey::from_str and the address method of
/// web3::signing::SecretKeyRef. The parse succeeds exactly on
/// `valid_secret_key_text` (sixty-four hex digits, value in the group), the
/// address derivation never fails, and the address is computed from the key
/// text alone.
#[verifier::external_body]
fn owner_address(eth_key: &str) -> (r: Option<Vec<u8>>)
    ensures
        r matches Some(a) ==> a@ == evm_address_of(eth_key@) && a@.len() == 20,
        r is Some <==> valid_secret_key_text(eth_key@),
{
    let pkey: secp256k1::SecretKey = match eth_key.parse() {
        Ok(k) => k,
        Err(_) => return None,
    };
    let address = web3::signing::SecretKeyRef::new(&pkey).address();
    Some(address.as_bytes().to_vec())
}

/// An ERC-721 transfer with its owner side settled: the address derived from
/// the signing key, and the prepared call.
pub struct SignedTransfer {
    pub owner: Vec<u8>,
    pub call: TransferNftCall,
}

/// The whole `POST /transfer-nft` preparation: derive the owner address from
/// the configured signing key, parse the recipient, and settle the token id.
/// A transfer is prepared exactly when the recipient text is a well-formed
/// address and the key text a well-formed secret key.
pub fn transfer_nft_request(
    eth_key: &str,
    to_address: &str,
    requested_token_id: Option<u32>,
    token_counter: u32,
) -> (r: Option<SignedTransfer>)
    ensures
        r is Some <==> is_evm_address_text(to_address@) && valid_secret_key_text(eth_key@),
        r matches Some(t) ==> t.owner@ == evm_address_of(eth_key@) && t.owner@.len() == 20
            && t.call.to@ == hex_bytes(strip_0x(to_address@)) && t.call.to@.len() == 20
            && t.call.token_id == match requested_token_id {
            Some(x) => x,
            None => token_counter,
        },
{
    let owner = match owner_address(eth_key) {
        Some(o) => o,
        None => {
            return None;
        },
    };
    match transfer_nft_args(to_address, requested_token_id, token_counter) {
        Some(call) => Some(SignedTransfer { owner, call }),
        None => None,
    }
}

/// Core of `POST /transfer-nft`: parse the recipient address and settle the
/// token id, the requested one when present and the store's counter value
/// otherwise. Malformed address text is rejected and nothing is transferred.
pub fn transfer_nft_args(to_address: &str, requested_token_id: Option<u32>, token_counter: u32) -> (r:
    Option<TransferNftCall>)
    ensures
        r matches Some(c) ==> is_evm_address_text(to_address@) && c.to@ == hex_bytes(
            strip_0x(to_address@),
        ) && c.to@.len() == 20 && c.token_id == match requested_token_id {
            Some(t) => t,
            None => token_counter,
        },
        r is None ==> !is_evm_address_text(to_address@),
{
    match parse_evm_address(to_address) {
        Some(to) => Some(
            TransferNftCall { to, token_id: choose_token_id(requested_token_id, token_counter) },
        ),
        None => None,
    }
}

} // verus!
