//! Signed Limitless orders: the EIP-712 digest of an order (its typed
//! struct hash under the exchange's domain) and the order as posted. The
//! hashing, the ABI words, the number and address parsing and the
//! signature come from `ethers`; the layout of what is hashed is proved
//! here.

use vstd::prelude::*;
use vstd::string::*;

use crate::limitless::clob::{
    aligned_shares, collateral_num, order_amounts, order_amounts_of, order_salt, salt_of, LimitlessSide,
};
use crate::limitless::error::LimitlessError;
use crate::limitless::http::{hex_prefixed, hex_text};
use crate::text::{concat, decimal, digits_value, is_digit, owned};

verus! {

/// Keccak-256 of `bytes`, as `ethers::utils::keccak256` computes it; the
/// permutation is left uninterpreted.
pub uninterp spec fn spec_keccak256(bytes: Seq<u8>) -> Seq<u8>;

/// `ethers::utils::keccak256`: the 32-byte Keccak-256 digest of `bytes`.
#[verifier::external_body]
fn keccak256(bytes: &[u8]) -> (r: Vec<u8>)
    ensures
        r@ == spec_keccak256(bytes@),
        r@.len() == 32,
{
    ethers::utils::keccak256(bytes).to_vec()
}

/// A static ABI value: a 32-byte word taken as is, an unsigned integer as
/// its 32 big-endian bytes, or a 20-byte address.
#[derive(Debug)]
pub enum AbiToken {
    FixedBytes(Vec<u8>),
    Uint(Vec<u8>),
    Address(Vec<u8>),
}

/// Whether a token has the width its kind takes.
pub open spec fn token_ok(t: AbiToken) -> bool {
    match t {
        AbiToken::FixedBytes(b) => b@.len() == 32,
        AbiToken::Uint(b) => b@.len() == 32,
        AbiToken::Address(a) => a@.len() == 20,
    }
}

/// The 32-byte word of a token: the bytes themselves, or an address after
/// twelve zero bytes.
pub open spec fn token_word(t: AbiToken) -> Seq<u8> {
    match t {
        AbiToken::FixedBytes(b) => b@,
        AbiToken::Uint(b) => b@,
        AbiToken::Address(a) => Seq::new(12, |i: int| 0u8) + a@,
    }
}

/// The words of `ts`, one after another.
pub open spec fn abi_words(ts: Seq<AbiToken>) -> Seq<u8>
    decreases ts.len(),
{
    if ts.len() == 0 {
        Seq::empty()
    } else {
        abi_words(ts.drop_last()) + token_word(ts.last())
    }
}

/// `ethers::abi::encode` of static tokens: the source writes each as one
/// 32-byte word, in order (an address left-padded with zeros, an unsigned
/// integer big-endian, a 32-byte fixed array as it is).
#[verifier::external_body]
fn abi_encode(tokens: &Vec<AbiToken>) -> (r: Vec<u8>)
    requires
        forall|i: int| 0 <= i < tokens@.len() ==> token_ok(#[trigger] tokens@[i]),
    ensures
        r@ == abi_words(tokens@),
{
    let ts: Vec<ethers::abi::Token> = tokens
        .iter()
        .map(|t| match t {
            AbiToken::FixedBytes(b) => ethers::abi::Token::FixedBytes(b.clone()),
            AbiToken::Uint(b) => ethers::abi::Token::Uint(ethers::types::U256::from_big_endian(b)),
            AbiToken::Address(a) => ethers::abi::Token::Address(ethers::types::Address::from_slice(a)),
        })
        .collect();
    ethers::abi::encode(&ts)
}

/// The `n` big-endian bytes of `v` (taken modulo `256^n`).
pub open spec fn be_bytes(v: nat, n: nat) -> Seq<u8>
    decreases n,
{
    if n == 0 {
        Seq::empty()
    } else {
        be_bytes(v / 256, (n - 1) as nat).push((v % 256) as u8)
    }
}

/// The length of the run of ASCII digits `s` starts with.
pub open spec fn digit_run(s: Seq<char>) -> nat
    decreases s.len(),
{
    if s.len() > 0 && is_digit(s[0]) {
        1 + digit_run(s.drop_first())
    } else {
        0
    }
}

/// What `U256::from_dec_str` makes of `s`: reading left to right, a value
/// of 2^256 or more is too large; otherwise a character that is not an
/// ASCII digit is refused; otherwise the value as 32 big-endian bytes (the
/// empty text reads as zero).
pub open spec fn dec_word_of(s: Seq<char>) -> Result<Seq<u8>, Seq<char>> {
    let k = digit_run(s);
    let v = digits_value(s.take(k as int));
    if v >= vstd::arithmetic::power2::pow2(256) {
        Err("the number is too large for the type"@)
    } else if k < s.len() {
        Err("a character is not in the range 0-9"@)
    } else {
        Ok(be_bytes(v as nat, 32))
    }
}

/// `U256::from_dec_str`, the value handed over as its 32 big-endian bytes
/// and an error as its text.
#[verifier::external_body]
fn u256_from_dec_str(text: &str) -> (r: Result<Vec<u8>, String>)
    ensures
        match r {
            Ok(w) => dec_word_of(text@) == Ok::<Seq<u8>, Seq<char>>(w@),
            Err(e) => dec_word_of(text@) == Err::<Seq<u8>, Seq<char>>(e@),
        },
{
    match ethers::types::U256::from_dec_str(text) {
        Ok(v) => {
            let mut w = vec![0u8; 32];
            v.to_big_endian(&mut w);
            Ok(w)
        },
        Err(e) => Err(e.to_string()),
    }
}

/// Whether `c` is an ASCII hexadecimal digit.
pub open spec fn is_hex_char(c: char) -> bool {
    ('0' <= c <= '9') || ('a' <= c <= 'f') || ('A' <= c <= 'F')
}

/// The white space the hex reader skips.
pub open spec fn is_hex_gap(c: char) -> bool {
    c == ' ' || c == '\r' || c == '\n' || c == '\t'
}

/// The value of a hexadecimal digit.
pub open spec fn hex_value(c: char) -> int {
    if '0' <= c <= '9' {
        c as int - 48
    } else if 'a' <= c <= 'f' {
        c as int - 87
    } else {
        c as int - 55
    }
}

/// An address text without its `0x` prefix.
pub open spec fn address_body(s: Seq<char>) -> Seq<char> {
    if s.len() >= 2 && s[0] == '0' && s[1] == 'x' {
        s.skip(2)
    } else {
        s
    }
}

/// The hexadecimal digits of an address text, in order.
pub open spec fn address_digits(s: Seq<char>) -> Seq<char> {
    address_body(s).filter(|c: char| is_hex_char(c))
}

/// Whether `s` reads as an address: after an optional `0x`, hexadecimal
/// digits and skipped white space only, with exactly 40 digits.
pub open spec fn is_address_text(s: Seq<char>) -> bool {
    &&& forall|i: int|
        0 <= i < address_body(s).len() ==> is_hex_char(#[trigger] address_body(s)[i]) || is_hex_gap(
            address_body(s)[i],
        )
    &&& address_digits(s).len() == 40
}

/// The 20 bytes an address text stands for, digit pairs high digit first.
pub open spec fn address_bytes(s: Seq<char>) -> Seq<u8> {
    let d = address_digits(s);
    Seq::new(20, |i: int| (hex_value(d[2 * i]) * 16 + hex_value(d[2 * i + 1])) as u8)
}

/// `ethers::types::Address::from_str`, read back as its 20 bytes.
#[verifier::external_body]
fn parse_address(text: &str) -> (r: Vec<u8>)
    requires
        is_address_text(text@),
    ensures
        r@ == address_bytes(text@),
{
    match text.parse::<ethers::types::Address>() {
        Ok(a) => a.as_bytes().to_vec(),
        Err(_) => Vec::new(),
    }
}

/// The address of the wallet whose private key is `key`, or the text of
/// the error reading the key, as `LocalWallet::from_str` and `address`
/// give them; key derivation is left uninterpreted.
pub uninterp spec fn spec_wallet_address(key: Seq<char>) -> Result<Seq<u8>, Seq<char>>;

/// `key.parse::<ethers::signers::LocalWallet>()`, then the wallet's
/// `address` as 20 bytes.
#[verifier::external_body]
fn wallet_address(key: &str) -> (r: Result<Vec<u8>, String>)
    ensures
        match r {
            Ok(a) => spec_wallet_address(key@) == Ok::<Seq<u8>, Seq<char>>(a@) && a@.len() == 20,
            Err(e) => spec_wallet_address(key@) == Err::<Seq<u8>, Seq<char>>(e@),
        },
{
    match key.parse::<ethers::signers::LocalWallet>() {
        Ok(w) => Ok(ethers::signers::Signer::address(&w).as_bytes().to_vec()),
        Err(e) => Err(e.to_string()),
    }
}

/// The signature `LocalWallet::sign_hash` gives for `digest` with the
/// wallet of private key `key` (deterministic, RFC 6979), as 65 bytes
/// `r || s || v`; or the text of the error. The curve arithmetic is left
/// uninterpreted.
pub uninterp spec fn spec_sign_hash(key: Seq<char>, digest: Seq<u8>) -> Result<Seq<u8>, Seq<char>>;

/// Reads the wallet of `key` and signs the 32-byte `digest` with
/// `LocalWallet::sign_hash`, giving `Signature::to_vec`.
#[verifier::external_body]
fn sign_digest(key: &str, digest: &[u8]) -> (r: Result<Vec<u8>, String>)
    requires
        digest@.len() == 32,
    ensures
        match r {
            Ok(s) => spec_sign_hash(key@, digest@) == Ok::<Seq<u8>, Seq<char>>(s@) && s@.len() == 65,
            Err(e) => spec_sign_hash(key@, digest@) == Err::<Seq<u8>, Seq<char>>(e@),
        },
{
    let wallet = match key.parse::<ethers::signers::LocalWallet>() {
        Ok(w) => w,
        Err(e) => return Err(e.to_string()),
    };
    match wallet.sign_hash(ethers::types::H256::from_slice(digest)) {
        Ok(sig) => Ok(sig.to_vec()),
        Err(e) => Err(e.to_string()),
    }
}

/// What EIP-191 hashes for a personal message `m`: the prefix
/// `\x19Ethereum Signed Message:\n`, the byte length of `m` in decimal,
/// then `m`.
pub open spec fn eip191_payload(m: Seq<u8>) -> Seq<u8> {
    vstd::utf8::encode_utf8("\x19Ethereum Signed Message:\n"@) + vstd::utf8::encode_utf8(decimal(m.len()))
        + m
}

/// `ethers::utils::hash_message`: Keccak-256 of the EIP-191 payload of
/// `message`, as `ethers` builds it.
#[verifier::external_body]
fn hash_message(message: &[u8]) -> (r: Vec<u8>)
    ensures
        r@ == spec_keccak256(eip191_payload(message@)),
        r@.len() == 32,
{
    ethers::utils::hash_message(message).as_bytes().to_vec()
}

/// The EIP-712 type of the domain.
pub const DOMAIN_TYPE: &'static str = "EIP712Domain(string name,string version,uint256 chainId,address verifyingContract)";

/// The name of the signing domain.
pub const DOMAIN_NAME: &'static str = "Limitless CTF Exchange";

/// The version of the signing domain.
pub const DOMAIN_VERSION: &'static str = "1";

/// The EIP-712 type of an order.
pub const ORDER_TYPE: &'static str = "Order(uint256 salt,address maker,address signer,address taker,uint256 tokenId,uint256 makerAmount,uint256 takerAmount,uint256 expiration,uint256 nonce,uint256 feeRateBps,uint8 side,uint8 signatureType)";

/// The hash of the UTF-8 bytes of a text.
pub open spec fn text_hash(s: Seq<char>) -> Seq<u8> {
    spec_keccak256(vstd::utf8::encode_utf8(s))
}

/// Keccak-256 of the UTF-8 bytes of `s`.
fn hash_text(s: &str) -> (r: Vec<u8>)
    ensures
        r@ == text_hash(s@),
        r@.len() == 32,
{
    keccak256(s.as_bytes())
}

/// The `n` big-endian bytes of `v`.
fn be_word(v: u64, n: usize) -> (r: Vec<u8>)
    ensures
        r@ == be_bytes(v as nat, n as nat),
        r@.len() == n,
    decreases n,
{
    if n == 0 {
        Vec::new()
    } else {
        let mut r = be_word(v / 256, n - 1);
        r.push((v % 256) as u8);
        r
    }
}

/// An address word: twelve zero bytes, then the address.
pub open spec fn address_word(a: Seq<u8>) -> Seq<u8> {
    Seq::new(12, |i: int| 0u8) + a
}

/// The zero address.
pub open spec fn zero_address() -> Seq<u8> {
    Seq::new(20, |i: int| 0u8)
}

/// The domain separator of the exchange contract at `contract` on chain
/// `chain_id`.
pub open spec fn domain_separator_of(chain_id: u64, contract: Seq<u8>) -> Seq<u8> {
    spec_keccak256(
        text_hash(DOMAIN_TYPE@) + text_hash(DOMAIN_NAME@) + text_hash(DOMAIN_VERSION@) + be_bytes(
            chain_id as nat,
            32,
        ) + address_word(contract),
    )
}

/// The EIP-712 domain separator of the exchange contract at
/// `exchange_address` on chain `chain_id`.
pub fn domain_separator(chain_id: u64, exchange_address: &str) -> (r: Vec<u8>)
    requires
        is_address_text(exchange_address@),
    ensures
        r@ == domain_separator_of(chain_id, address_bytes(exchange_address@)),
        r@.len() == 32,
{
    let t0 = hash_text(DOMAIN_TYPE);
    let t1 = hash_text(DOMAIN_NAME);
    let t2 = hash_text(DOMAIN_VERSION);
    let t3 = be_word(chain_id, 32);
    let t4 = parse_address(exchange_address);
    let ghost words = t0@ + t1@ + t2@ + t3@ + address_word(t4@);
    let tokens = vec![
        AbiToken::FixedBytes(t0),
        AbiToken::FixedBytes(t1),
        AbiToken::FixedBytes(t2),
        AbiToken::Uint(t3),
        AbiToken::Address(t4),
    ];
    proof {
        reveal_with_fuel(abi_words, 6);
        assert(abi_words(tokens@) =~= words);
        assert forall|i: int| 0 <= i < tokens@.len() implies token_ok(#[trigger] tokens@[i]) by {
            assert(0 <= i < 5);
        }
    }
    let enc = abi_encode(&tokens);
    keccak256(enc.as_slice())
}

/// The fields of an order as hashed: salt, maker (also the signer), token
/// word, amounts, fee rate and side; the taker is the zero address, the
/// expiration, nonce and signature type are zero.
pub open spec fn order_words(
    salt: u64,
    maker: Seq<u8>,
    token: Seq<u8>,
    maker_amount: u64,
    taker_amount: u64,
    fee_rate_bps: u64,
    side: u8,
) -> Seq<u8> {
    text_hash(ORDER_TYPE@) + be_bytes(salt as nat, 32) + address_word(maker) + address_word(maker)
        + address_word(zero_address()) + token + be_bytes(maker_amount as nat, 32) + be_bytes(
        taker_amount as nat,
        32,
    ) + be_bytes(0, 32) + be_bytes(0, 32) + be_bytes(fee_rate_bps as nat, 32) + be_bytes(
        side as nat,
        32,
    ) + be_bytes(0, 32)
}

/// The typed-data digest that is signed: `0x19 0x01`, the domain
/// separator and the struct hash, hashed.
pub open spec fn order_digest_of(domain: Seq<u8>, order_words: Seq<u8>) -> Seq<u8> {
    spec_keccak256(seq![0x19u8, 0x01u8] + domain + spec_keccak256(order_words))
}

/// The struct hash of an order.
fn order_struct_hash(
    salt: u64,
    maker: &Vec<u8>,
    token: &Vec<u8>,
    maker_amount: u64,
    taker_amount: u64,
    fee_rate_bps: u64,
    side: u8,
) -> (r: Vec<u8>)
    requires
        maker@.len() == 20,
        token@.len() == 32,
    ensures
        r@ == spec_keccak256(order_words(salt, maker@, token@, maker_amount, taker_amount, fee_rate_bps, side)),
        r@.len() == 32,
{
    let zero: Vec<u8> = vec![0u8; 20];
    assert(zero@ =~= zero_address());
    let tokens = vec![
        AbiToken::FixedBytes(hash_text(ORDER_TYPE)),
        AbiToken::Uint(be_word(salt, 32)),
        AbiToken::Address(maker.clone()),
        AbiToken::Address(maker.clone()),
        AbiToken::Address(zero),
        AbiToken::Uint(token.clone()),
        AbiToken::Uint(be_word(maker_amount, 32)),
        AbiToken::Uint(be_word(taker_amount, 32)),
        AbiToken::Uint(be_word(0, 32)),
        AbiToken::Uint(be_word(0, 32)),
        AbiToken::Uint(be_word(fee_rate_bps, 32)),
        AbiToken::Uint(be_word(side as u64, 32)),
        AbiToken::Uint(be_word(0, 32)),
    ];
    proof {
        assert forall|i: int| 0 <= i < tokens@.len() implies token_ok(#[trigger] tokens@[i]) by {
            assert(0 <= i < 13);
        }
        reveal_with_fuel(abi_words, 14);
        assert(abi_words(tokens@) =~= order_words(
            salt,
            maker@,
            token@,
            maker_amount,
            taker_amount,
            fee_rate_bps,
            side,
        ));
    }
    let enc = abi_encode(&tokens);
    keccak256(enc.as_slice())
}

/// The digest of an order under a domain separator.
fn order_digest(domain: &Vec<u8>, struct_hash: &Vec<u8>) -> (r: Vec<u8>)
    ensures
        r@ == spec_keccak256(seq![0x19u8, 0x01u8] + domain@ + struct_hash@),
        r@.len() == 32,
{
    let mut payload: Vec<u8> = vec![0x19u8, 0x01u8];
    let mut a = domain.clone();
    payload.append(&mut a);
    let mut b = struct_hash.clone();
    payload.append(&mut b);
    assert(payload@ =~= seq![0x19u8, 0x01u8] + domain@ + struct_hash@);
    keccak256(payload.as_slice())
}

/// An order as posted, signed. Amounts are in millionths; addresses and
/// the signature are `0x` hex.
#[derive(Debug, Clone)]
pub struct SignedOrder {
    pub salt: u64,
    pub maker: String,
    pub signer: String,
    pub taker: String,
    pub token_id: String,
    pub maker_amount: u64,
    pub taker_amount: u64,
    pub expiration: String,
    pub nonce: u64,
    pub fee_rate_bps: u64,
    pub side: u8,
    pub signature_type: u8,
    pub signature: String,
}

/// The wallet that signs orders: its private key and the address it
/// derives.
pub struct OrderSigner {
    key: String,
    address: Vec<u8>,
    chain_id: u64,
}

/// The side code of a signed order.
pub open spec fn side_code(side: LimitlessSide) -> u8 {
    match side {
        LimitlessSide::Buy => 0,
        LimitlessSide::Sell => 1,
    }
}

impl OrderSigner {
    /// The private key text.
    pub closed spec fn key(&self) -> Seq<char> {
        self.key@
    }

    /// The wallet's address.
    pub closed spec fn address(&self) -> Seq<u8> {
        self.address@
    }

    /// The chain orders are signed for.
    pub closed spec fn chain(&self) -> u64 {
        self.chain_id
    }

    /// The address is the one the key derives.
    #[verifier::type_invariant]
    spec fn wf(self) -> bool {
        &&& spec_wallet_address(self.key@) == Ok::<Seq<u8>, Seq<char>>(self.address@)
        &&& self.address@.len() == 20
    }

    /// The signer of the wallet with private key `private_key` (hex), for
    /// Limitless's chain; a key that does not read is an authentication
    /// error.
    pub fn new(private_key: &str) -> (r: Result<Self, LimitlessError>)
        ensures
            match spec_wallet_address(private_key@) {
                Ok(a) => r matches Ok(s) && s.key() == private_key@ && s.address() == a && s.chain()
                    == crate::limitless::config::CHAIN_ID,
                Err(e) => r matches Err(LimitlessError::Auth(m)) && m@ == "invalid private key: "@ + e,
            },
    {
        match wallet_address(private_key) {
            Ok(address) => Ok(OrderSigner {
                key: owned(private_key),
                address,
                chain_id: crate::limitless::config::CHAIN_ID,
            }),
            Err(e) => {
                proof {
                    reveal_strlit("invalid private key: ");
                }
                Err(LimitlessError::Auth(concat("invalid private key: ", e.as_str())))
            },
        }
    }

    /// The wallet's address as `0x` hex.
    pub fn address_text(&self) -> (r: String)
        ensures
            r@ == "0x"@ + hex_text(self.address()),
    {
        hex_prefixed(self.address.as_slice())
    }

    /// Signs a login message as an EIP-191 personal message; the signature
    /// as `0x` hex.
    pub fn sign_login_message(&self, message: &str) -> (r: Result<String, LimitlessError>)
        ensures
            match spec_sign_hash(self.key(), spec_keccak256(eip191_payload(vstd::utf8::encode_utf8(message@)))) {
                Ok(sig) => r matches Ok(h) && h@ == "0x"@ + hex_text(sig),
                Err(e) => r matches Err(LimitlessError::Auth(m)) && m@ == "signing failed: "@ + e,
            },
    {
        let digest = hash_message(message.as_bytes());
        match sign_digest(self.key.as_str(), digest.as_slice()) {
            Ok(sig) => Ok(hex_prefixed(sig.as_slice())),
            Err(e) => {
                proof {
                    reveal_strlit("signing failed: ");
                }
                Err(LimitlessError::Auth(concat("signing failed: ", e.as_str())))
            },
        }
    }

    /// Builds and signs an order for `token_id` (decimal) of `shares` at
    /// `price_int` (both in millionths) on the exchange contract at
    /// `exchange_address`, made at `timestamp_ms`: the salt and amounts as
    /// the book's rules give them, the EIP-712 digest of the order signed
    /// with the wallet. A token id that does not read, or a failed
    /// signature, is an error.
    pub fn build_signed_order(
        &self,
        token_id: &str,
        shares: u64,
        price_int: u64,
        side: LimitlessSide,
        exchange_address: &str,
        fee_rate_bps: u64,
        timestamp_ms: u64,
    ) -> (r: Result<SignedOrder, LimitlessError>)
        requires
            salt_of(timestamp_ms) <= u64::MAX,
            collateral_num(aligned_shares(shares), price_int) <= u128::MAX,
            is_address_text(exchange_address@),
        ensures
            ({
                let salt = salt_of(timestamp_ms) as u64;
                let amounts = order_amounts_of(side, shares, price_int);
                match dec_word_of(token_id@) {
                    Err(e) => r matches Err(LimitlessError::Api(m)) && m@ == "invalid token_id: "@ + e,
                    Ok(tok) => {
                        let digest = order_digest_of(
                            domain_separator_of(self.chain(), address_bytes(exchange_address@)),
                            order_words(salt, self.address(), tok, amounts.0, amounts.1, fee_rate_bps, side_code(side)),
                        );
                        match spec_sign_hash(self.key(), digest) {
                            Err(e) => r matches Err(LimitlessError::Auth(m)) && m@ == "signing failed: "@ + e,
                            Ok(sig) => r matches Ok(o) && {
                                &&& o.salt == salt
                                &&& o.maker@ == "0x"@ + hex_text(self.address())
                                &&& o.signer@ == o.maker@
                                &&& o.taker@ == "0x"@ + hex_text(zero_address())
                                &&& o.token_id@ == token_id@
                                &&& (o.maker_amount, o.taker_amount) == amounts
                                &&& o.expiration@ == "0"@
                                &&& o.nonce == 0
                                &&& o.fee_rate_bps == fee_rate_bps
                                &&& o.side == side_code(side)
                                &&& o.signature_type == 0
                                &&& o.signature@ == "0x"@ + hex_text(sig)
                            },
                        }
                    },
                }
            }),
    {
        proof {
            use_type_invariant(self);
        }
        let salt = order_salt(timestamp_ms);
        let (maker_amount, taker_amount) = order_amounts(side, shares, price_int);
        let tok = match u256_from_dec_str(token_id) {
            Ok(w) => w,
            Err(e) => {
                proof {
                    reveal_strlit("invalid token_id: ");
                }
                return Err(LimitlessError::Api(concat("invalid token_id: ", e.as_str())));
            },
        };
        assert(tok@.len() == 32) by {
            lemma_be_bytes_len(tok@, token_id@);
        }
        let code: u8 = match side {
            LimitlessSide::Buy => 0,
            LimitlessSide::Sell => 1,
        };
        let domain = domain_separator(self.chain_id, exchange_address);
        let struct_hash = order_struct_hash(salt, &self.address, &tok, maker_amount, taker_amount, fee_rate_bps, code);
        let digest = order_digest(&domain, &struct_hash);
        let sig = match sign_digest(self.key.as_str(), digest.as_slice()) {
            Ok(s) => s,
            Err(e) => {
                proof {
                    reveal_strlit("signing failed: ");
                }
                return Err(LimitlessError::Auth(concat("signing failed: ", e.as_str())));
            },
        };
        let zero: Vec<u8> = vec![0u8; 20];
        assert(zero@ =~= zero_address());
        let maker = hex_prefixed(self.address.as_slice());
        proof {
            reveal_strlit("0");
        }
        Ok(
            SignedOrder {
                salt,
                maker: maker.clone(),
                signer: maker,
                taker: hex_prefixed(zero.as_slice()),
                token_id: owned(token_id),
                maker_amount,
                taker_amount,
                expiration: owned("0"),
                nonce: 0,
                fee_rate_bps,
                side: code,
                signature_type: 0,
                signature: hex_prefixed(sig.as_slice()),
            },
        )
    }
}

/// A word `U256::from_dec_str` gives has 32 bytes.
proof fn lemma_be_bytes_len(w: Seq<u8>, s: Seq<char>)
    requires
        dec_word_of(s) == Ok::<Seq<u8>, Seq<char>>(w),
    ensures
        w.len() == 32,
{
    let k = digit_run(s);
    let v = digits_value(s.take(k as int));
    lemma_be_len(v as nat, 32);
}

/// `be_bytes(v, n)` has `n` bytes.
proof fn lemma_be_len(v: nat, n: nat)
    ensures
        be_bytes(v, n).len() == n,
    decreases n,
{
    if n > 0 {
        lemma_be_len(v / 256, (n - 1) as nat);
    }
}

} // verus!
