use vstd::prelude::*;

verus! {

// The mint-account creation transaction, modelled as the plain values the
// backend decides before handing them to the Solana RPC client: which account
// funds, which account is created, with how many lamports, how much space,
// under which owner program, and how the fresh mint is initialised and the
// transaction signed. Public keys are carried as their thirty-two bytes.

/// Byte length of an SPL-token mint account's data (the rent-exemption
/// balance is fetched for exactly this size).
pub const MINT_ACCOUNT_LEN: u64 = 82;

/// Decimals the backend gives a freshly created mint.
pub const MINT_DECIMALS: u8 = 9;

/// The "create account" instruction of the transaction: transfer
/// `lamports` from `funder` to the fresh `new_account`, sized `space` and
/// assigned to `owner_program`.
pub struct CreateAccountStep {
    pub funder: Vec<u8>,
    pub new_account: Vec<u8>,
    pub lamports: u64,
    pub space: u64,
    pub owner_program: Vec<u8>,
}

/// The "initialize mint" instruction of the transaction: make `mint` an
/// SPL-token mint with the given authority and decimals, and no freeze
/// authority.
pub struct InitializeMintStep {
    pub mint: Vec<u8>,
    pub mint_authority: Vec<u8>,
    pub freeze_authority: Option<Vec<u8>>,
    pub decimals: u8,
}

/// The whole planned transaction: both instructions, the fee payer, the
/// recent blockhash the signatures cover, and the keys that must sign (the
/// fresh account authorises its own creation, so it signs beside the
/// funder).
pub struct MintCreationPlan {
    pub create: CreateAccountStep,
    pub init: InitializeMintStep,
    pub fee_payer: Vec<u8>,
    pub recent_blockhash: Vec<u8>,
    pub signers: Vec<Vec<u8>>,
}

/// The address of the SPL token program, the owner of every mint account:
/// the thirty-two bytes whose base58 form is
/// "TokenkegQfeZyiNwAJbNbGKPFXCWuBvf9Ss623VQ5DA".
pub fn spl_token_program_id() -> (k: Vec<u8>)
    ensures
        k@ == seq![
            0x06u8, 0xdd, 0xf6, 0xe1, 0xd7, 0x65, 0xa1, 0x93, 0xd9, 0xcb, 0xe1, 0x46, 0xce,
            0xeb, 0x79, 0xac, 0x1c, 0xb4, 0x85, 0xed, 0x5f, 0x5b, 0x37, 0x91, 0x3a, 0x8c,
            0xf5, 0x85, 0x7e, 0xff, 0x00, 0xa9,
        ],
        k@.len() == 32,
{
    let k: Vec<u8> = vec![
        0x06u8, 0xdd, 0xf6, 0xe1, 0xd7, 0x65, 0xa1, 0x93, 0xd9, 0xcb, 0xe1, 0x46, 0xce, 0xeb,
        0x79, 0xac, 0x1c, 0xb4, 0x85, 0xed, 0x5f, 0x5b, 0x37, 0x91, 0x3a, 0x8c, 0xf5, 0x85,
        0x7e, 0xff, 0x00, 0xa9,
    ];
    k
}

/// The airdrop-and-read step behind `POST /mint-nft`: which RPC endpoint is
/// asked, whose balance is credited and then read, and by how much.
pub struct AirdropPlan {
    pub rpc_url: String,
    pub target: Vec<u8>,
    pub lamports: u64,
}

/// Plan the mint operation's airdrop: one lamport for the configured signer,
/// always against the devnet faucet — the configured RPC endpoint plays no
/// part here.
pub fn plan_airdrop(signer_pubkey: &Vec<u8>) -> (p: AirdropPlan)
    requires
        signer_pubkey@.len() == 32,
    ensures
        p.rpc_url@ == "https://api.devnet.solana.com"@,
        p.target@ == signer_pubkey@,
        p.lamports == 1,
{
    AirdropPlan {
        rpc_url: String::from_str("https://api.devnet.solana.com"),
        target: copy_key(signer_pubkey),
        lamports: 1,
    }
}

fn copy_key(k: &Vec<u8>) -> (r: Vec<u8>)
    ensures
        r@ == k@,
{
    let mut r: Vec<u8> = Vec::new();
    let mut i: usize = 0;
    while i < k.len()
        invariant
            i <= k@.len(),
            r@ == k@.take(i as int),
        decreases k@.len() - i,
    {
        r.push(k[i]);
        proof {
            assert(r@ =~= k@.take(i as int + 1));
        }
        i += 1;
    }
    proof {
        assert(r@ =~= k@);
    }
    r
}

/// Plan the mint-account creation for a signer and a fetched rent-exemption
/// balance. The signer's key deliberately stands in every role — funder,
/// fresh account, mint, authority, fee payer and both signatures — which
/// reproduces the backend's use of one keypair as both the funding signer
/// and the new mint account's identity.
pub fn plan_mint_creation(
    signer_pubkey: &Vec<u8>,
    rent_exempt_lamports: u64,
    recent_blockhash: &Vec<u8>,
    token_program: &Vec<u8>,
) -> (p: MintCreationPlan)
    requires
        signer_pubkey@.len() == 32,
        recent_blockhash@.len() == 32,
        token_program@.len() == 32,
    ensures
        p.create.funder@ == signer_pubkey@,
        p.create.new_account@ == signer_pubkey@,
        p.create.lamports == rent_exempt_lamports,
        p.create.space == MINT_ACCOUNT_LEN,
        p.create.owner_program@ == token_program@,
        p.init.mint@ == signer_pubkey@,
        p.init.mint_authority@ == signer_pubkey@,
        p.init.freeze_authority is None,
        p.init.decimals == MINT_DECIMALS,
        p.fee_payer@ == signer_pubkey@,
        p.recent_blockhash@ == recent_blockhash@,
        p.signers@.len() == 2,
        p.signers@[0]@ == signer_pubkey@,
        p.signers@[1]@ == signer_pubkey@,
{
    let create = CreateAccountStep {
        funder: copy_key(signer_pubkey),
        new_account: copy_key(signer_pubkey),
        lamports: rent_exempt_lamports,
        space: MINT_ACCOUNT_LEN,
        owner_program: copy_key(token_program),
    };
    let init = InitializeMintStep {
        mint: copy_key(signer_pubkey),
        mint_authority: copy_key(signer_pubkey),
        freeze_authority: None,
        decimals: MINT_DECIMALS,
    };
    let mut signers: Vec<Vec<u8>> = Vec::new();
    signers.push(copy_key(signer_pubkey));
    signers.push(copy_key(signer_pubkey));
    MintCreationPlan {
        create,
        init,
        fee_payer: copy_key(signer_pubkey),
        recent_blockhash: copy_key(recent_blockhash),
        signers,
    }
}

} // verus!
