use goose_bumps_backend::evm::{
    choose_token_id, format_tx_hash, parse_evm_address, transfer_nft_args, transfer_nft_request,
};
use goose_bumps_backend::solana_plan::{
    plan_airdrop, plan_mint_creation, spl_token_program_id, MINT_ACCOUNT_LEN, MINT_DECIMALS,
};
use std::str::FromStr;
use web3::signing::Key;

const EXAMPLE_ADDRESS: &str = "0x5cf2273601FD25b8CA59d5d22966cD121c1BFafe";

const EXAMPLE_ADDRESS_BYTES: [u8; 20] = [
    0x5c, 0xf2, 0x27, 0x36, 0x01, 0xfd, 0x25, 0xb8, 0xca, 0x59, 0xd5, 0xd2, 0x29, 0x66, 0xcd,
    0x12, 0x1c, 0x1b, 0xfa, 0xfe,
];

#[test]
fn parse_evm_address_accepts_prefixed_and_bare_text() {
    let b = parse_evm_address(EXAMPLE_ADDRESS).expect("well-formed address");
    assert_eq!(b, EXAMPLE_ADDRESS_BYTES.to_vec());

    let bare = parse_evm_address("5cf2273601FD25b8CA59d5d22966cD121c1BFafe")
        .expect("prefix is optional");
    assert_eq!(bare, EXAMPLE_ADDRESS_BYTES.to_vec());
}

#[test]
fn parse_evm_address_agrees_with_the_evm_client_parser() {
    let ours = parse_evm_address(EXAMPLE_ADDRESS).expect("well-formed address");
    let theirs = web3::types::Address::from_str(EXAMPLE_ADDRESS).expect("well-formed address");
    assert_eq!(ours.as_slice(), theirs.as_bytes());
}

#[test]
fn parse_evm_address_rejects_malformed_text() {
    assert!(parse_evm_address("").is_none());
    assert!(parse_evm_address("0x").is_none());
    assert!(parse_evm_address("0x5cf2").is_none());
    assert!(parse_evm_address("0x5cf2273601FD25b8CA59d5d22966cD121c1BFaf").is_none());
    assert!(parse_evm_address("0x5cf2273601FD25b8CA59d5d22966cD121c1BFafe0").is_none());
    assert!(parse_evm_address("0x5cf2273601FD25b8CA59d5d22966cD121c1BFafg").is_none());
}

#[test]
fn transfer_uses_requested_token_id() {
    let call = transfer_nft_args(EXAMPLE_ADDRESS, Some(7), 0).expect("well-formed address");
    assert_eq!(call.token_id, 7);
    assert_eq!(call.to, EXAMPLE_ADDRESS_BYTES.to_vec());
}

#[test]
fn transfer_defaults_token_id_to_counter() {
    let call = transfer_nft_args(EXAMPLE_ADDRESS, None, 0).expect("well-formed address");
    assert_eq!(call.token_id, 0);

    assert_eq!(choose_token_id(None, 5), 5);
    assert_eq!(choose_token_id(Some(9), 5), 9);
}

#[test]
fn transfer_rejects_malformed_address() {
    assert!(transfer_nft_args("not-an-address", Some(1), 0).is_none());
}

#[test]
fn tx_hash_formats_as_prefixed_lower_hex() {
    let mut bytes = vec![0u8; 32];
    bytes[0] = 0xab;
    bytes[1] = 0xcd;
    bytes[31] = 0x0f;
    let text = format_tx_hash(&bytes);
    assert_eq!(
        text,
        "0xabcd00000000000000000000000000000000000000000000000000000000000f"
    );
}

#[test]
fn tx_hash_format_matches_the_evm_client_debug_form() {
    let mut bytes = vec![0u8; 32];
    for (i, b) in bytes.iter_mut().enumerate() {
        *b = i as u8;
    }
    let theirs = web3::types::H256::from_slice(&bytes);
    assert_eq!(format_tx_hash(&bytes), format!("{:?}", theirs));
}

#[test]
fn owner_address_matches_the_evm_signing_library() {
    let key_hex = "4646464646464646464646464646464646464646464646464646464646464646";
    let t = transfer_nft_request(key_hex, EXAMPLE_ADDRESS, Some(1), 0)
        .expect("well-formed key and address");
    assert_eq!(t.call.token_id, 1);
    assert_eq!(t.call.to, EXAMPLE_ADDRESS_BYTES.to_vec());

    let pkey: secp256k1::SecretKey = key_hex.parse().unwrap();
    let expected = web3::signing::SecretKeyRef::new(&pkey).address();
    assert_eq!(t.owner.as_slice(), expected.as_bytes());
}

#[test]
fn transfer_request_rejects_malformed_key_text() {
    let r = transfer_nft_request("not-a-key", EXAMPLE_ADDRESS, None, 0);
    assert!(r.is_none());
}

#[test]
fn transfer_request_rejects_out_of_range_keys() {
    // The zero scalar and values at or above the group order are no keys.
    let zero = "0".repeat(64);
    assert!(transfer_nft_request(&zero, EXAMPLE_ADDRESS, None, 0).is_none());
    let too_large = "f".repeat(64);
    assert!(transfer_nft_request(&too_large, EXAMPLE_ADDRESS, None, 0).is_none());
    let order = "fffffffffffffffffffffffffffffffebaaedce6af48a03bbfd25e8cd0364141";
    assert!(transfer_nft_request(order, EXAMPLE_ADDRESS, None, 0).is_none());
    // One below the order is the largest valid key.
    let order_minus_one = "fffffffffffffffffffffffffffffffebaaedce6af48a03bbfd25e8cd0364140";
    assert!(transfer_nft_request(order_minus_one, EXAMPLE_ADDRESS, None, 0).is_some());
}

#[test]
fn mint_plan_pins_every_decision() {
    let signer = vec![1u8; 32];
    let blockhash = vec![3u8; 32];
    let program = spl_token_program_id();
    let plan = plan_mint_creation(&signer, 1_461_600, &blockhash, &program);

    assert_eq!(plan.create.funder, signer);
    assert_eq!(plan.create.new_account, signer);
    assert_eq!(plan.create.lamports, 1_461_600);
    assert_eq!(plan.create.space, MINT_ACCOUNT_LEN);
    assert_eq!(plan.create.space, 82);
    assert_eq!(plan.create.owner_program, program);

    assert_eq!(plan.init.mint, signer);
    assert_eq!(plan.init.mint_authority, signer);
    assert!(plan.init.freeze_authority.is_none());
    assert_eq!(plan.init.decimals, MINT_DECIMALS);
    assert_eq!(plan.init.decimals, 9);

    assert_eq!(plan.fee_payer, signer);
    assert_eq!(plan.recent_blockhash, blockhash);
    assert_eq!(plan.signers, vec![signer.clone(), signer]);
}

#[test]
fn spl_token_program_id_has_the_known_bytes() {
    let id = spl_token_program_id();
    assert_eq!(id.len(), 32);
    assert_eq!(
        id,
        vec![
            0x06, 0xdd, 0xf6, 0xe1, 0xd7, 0x65, 0xa1, 0x93, 0xd9, 0xcb, 0xe1, 0x46, 0xce, 0xeb,
            0x79, 0xac, 0x1c, 0xb4, 0x85, 0xed, 0x5f, 0x5b, 0x37, 0x91, 0x3a, 0x8c, 0xf5, 0x85,
            0x7e, 0xff, 0x00, 0xa9,
        ]
    );
}

#[test]
fn airdrop_plan_targets_devnet_with_one_lamport() {
    let signer = vec![7u8; 32];
    let plan = plan_airdrop(&signer);
    assert_eq!(plan.rpc_url, "https://api.devnet.solana.com");
    assert_eq!(plan.target, signer);
    assert_eq!(plan.lamports, 1);
}
