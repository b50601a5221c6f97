use ethers::abi::{encode, Token};
use ethers::signers::{LocalWallet, Signer};
use ethers::types::{Address, H256, U256};
use ethers::utils::keccak256;
use openpx::limitless::clob::{order_amounts, order_salt, LimitlessSide};
use openpx::limitless::error::LimitlessError;
use openpx::limitless::signing::{domain_separator, OrderSigner};

const KEY: &str = "4c0883a69102937d6231471b5dbb6204fe5129617082792ae468d01a3f362318";
const EXCHANGE: &str = "0xa4409D988CA2218d956BeEFD3874100F444f0DC3";

fn expected_domain(chain_id: u64, contract: &str) -> [u8; 32] {
    let contract: Address = contract.parse().unwrap();
    keccak256(encode(&[
        Token::FixedBytes(
            keccak256(b"EIP712Domain(string name,string version,uint256 chainId,address verifyingContract)").to_vec(),
        ),
        Token::FixedBytes(keccak256(b"Limitless CTF Exchange").to_vec()),
        Token::FixedBytes(keccak256(b"1").to_vec()),
        Token::Uint(U256::from(chain_id)),
        Token::Address(contract),
    ]))
}

#[allow(clippy::too_many_arguments)]
fn expected_digest(
    salt: u64,
    maker: Address,
    token_id: U256,
    maker_amount: u64,
    taker_amount: u64,
    fee_rate_bps: u64,
    side: u8,
) -> [u8; 32] {
    let type_hash = keccak256(
        b"Order(uint256 salt,address maker,address signer,address taker,uint256 tokenId,uint256 makerAmount,uint256 takerAmount,uint256 expiration,uint256 nonce,uint256 feeRateBps,uint8 side,uint8 signatureType)",
    );
    let struct_hash = keccak256(encode(&[
        Token::FixedBytes(type_hash.to_vec()),
        Token::Uint(U256::from(salt)),
        Token::Address(maker),
        Token::Address(maker),
        Token::Address(Address::zero()),
        Token::Uint(token_id),
        Token::Uint(U256::from(maker_amount)),
        Token::Uint(U256::from(taker_amount)),
        Token::Uint(U256::zero()),
        Token::Uint(U256::zero()),
        Token::Uint(U256::from(fee_rate_bps)),
        Token::Uint(U256::from(side)),
        Token::Uint(U256::zero()),
    ]));
    let mut payload = vec![0x19, 0x01];
    payload.extend_from_slice(&expected_domain(8453, EXCHANGE));
    payload.extend_from_slice(&struct_hash);
    keccak256(&payload)
}

#[test]
fn eip712_domain_separator() {
    assert_eq!(domain_separator(8453, EXCHANGE), expected_domain(8453, EXCHANGE).to_vec());
    assert_eq!(domain_separator(1, EXCHANGE), expected_domain(1, EXCHANGE).to_vec());
    let spaced = "0xa4409d988ca2218d956beefd3874100f 444f0dc3";
    assert_eq!(domain_separator(8453, spaced), expected_domain(8453, EXCHANGE).to_vec());
}

#[test]
fn signer_address() {
    let wallet: LocalWallet = KEY.parse().unwrap();
    let signer = OrderSigner::new(KEY).expect("a valid key");
    assert_eq!(signer.address_text(), format!("{:?}", wallet.address()));
    match OrderSigner::new("zz") {
        Err(LimitlessError::Auth(m)) => assert!(m.starts_with("invalid private key: "), "{}", m),
        _ => panic!("expected an invalid key"),
    }
}

#[test]
fn signed_order_matches_typed_data_signature() {
    let wallet: LocalWallet = KEY.parse().unwrap();
    let signer = OrderSigner::new(KEY).unwrap();
    let token_id = "71321045679252212594626385532706912750332728571942532289631379312455583992563";
    let ts: u64 = 1_700_000_000_123;
    let order = signer
        .build_signed_order(token_id, 12_345_678, 420_000, LimitlessSide::Buy, EXCHANGE, 0, ts)
        .expect("a signed order");
    let (maker_amount, taker_amount) = order_amounts(LimitlessSide::Buy, 12_345_678, 420_000);
    assert_eq!(order.salt, order_salt(ts));
    assert_eq!(order.salt, ts * 1000 + ts % 1000 + 86_400_000);
    assert_eq!((order.maker_amount, order.taker_amount), (maker_amount, taker_amount));
    assert_eq!(order.maker, format!("{:?}", wallet.address()));
    assert_eq!(order.signer, order.maker);
    assert_eq!(order.taker, format!("{:?}", Address::zero()));
    assert_eq!(order.token_id, token_id);
    assert_eq!(order.expiration, "0");
    assert_eq!(order.side, 0);
    assert_eq!(order.signature_type, 0);

    let digest = expected_digest(
        order.salt,
        wallet.address(),
        U256::from_dec_str(token_id).unwrap(),
        maker_amount,
        taker_amount,
        0,
        0,
    );
    let sig = wallet.sign_hash(H256::from(digest)).unwrap();
    assert_eq!(order.signature, format!("0x{}", hex::encode(sig.to_vec())));
    assert_eq!(sig.recover(H256::from(digest)).unwrap(), wallet.address());

    let sell = signer
        .build_signed_order(token_id, 5_000_999, 999_000, LimitlessSide::Sell, EXCHANGE, 25, ts)
        .unwrap();
    assert_eq!(sell.side, 1);
    assert_eq!(sell.fee_rate_bps, 25);
    assert_eq!((sell.maker_amount, sell.taker_amount), order_amounts(LimitlessSide::Sell, 5_000_999, 999_000));
}

#[test]
fn signed_order_token_errors() {
    let signer = OrderSigner::new(KEY).unwrap();
    match signer.build_signed_order("12x", 1_000_000, 500_000, LimitlessSide::Buy, EXCHANGE, 0, 1) {
        Err(LimitlessError::Api(m)) => assert_eq!(m, "invalid token_id: a character is not in the range 0-9"),
        _ => panic!("expected an invalid token id"),
    }
    let too_big = "1".repeat(80);
    match signer.build_signed_order(&too_big, 1_000_000, 500_000, LimitlessSide::Buy, EXCHANGE, 0, 1) {
        Err(LimitlessError::Api(m)) => assert_eq!(m, "invalid token_id: the number is too large for the type"),
        _ => panic!("expected a token id too large"),
    }
}

#[test]
fn login_message_signature() {
    let wallet: LocalWallet = KEY.parse().unwrap();
    let signer = OrderSigner::new(KEY).unwrap();
    let sig = wallet.sign_hash(ethers::utils::hash_message("Sign in: 42 é")).unwrap();
    assert_eq!(signer.sign_login_message("Sign in: 42 é").unwrap(), format!("0x{}", hex::encode(sig.to_vec())));
}
