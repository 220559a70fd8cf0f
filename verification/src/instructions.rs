use vstd::prelude::*;
use crate::errors::ErrorCode;
use crate::identity::Identity;
use crate::router::Routing;
use crate::structs::{AccountSnapshot, GlobalState};
use crate::token::{
    balance_spec, get_token_balance, token_2022_id_bytes, token_2022_program_id,
};

verus! {

/// One account of an instruction, with the rights it is passed with.
#[derive(Clone, Copy, Debug, PartialEq, Eq)]
pub struct AccountRole {
    pub pubkey: Identity,
    pub is_signer: bool,
    pub is_writable: bool,
}

/// An instruction for the host to invoke: the program to call, the
/// accounts to pass and the payload.
#[derive(Clone, Debug, PartialEq, Eq)]
pub struct InstructionPlan {
    pub program_id: Identity,
    pub accounts: Vec<AccountRole>,
    pub data: Vec<u8>,
}

/// The first `count` bytes of `value`, least significant first.
pub open spec fn le_bytes(value: nat, count: nat) -> Seq<u8>
    decreases count,
{
    if count == 0 {
        Seq::empty()
    } else {
        seq![(value % 256) as u8].add(le_bytes(value / 256, (count - 1) as nat))
    }
}

/// The bytes of this program's own identity.
pub open spec fn program_id_bytes() -> Seq<u8> {
    seq![
        4u8, 222u8, 189u8, 190u8, 195u8, 5u8, 30u8, 175u8,
        151u8, 62u8, 71u8, 132u8, 177u8, 69u8, 164u8, 213u8,
        218u8, 201u8, 42u8, 109u8, 25u8, 179u8, 166u8, 162u8,
        144u8, 206u8, 152u8, 252u8, 194u8, 146u8, 195u8, 30u8,
    ]
}

/// This program's own identity.
pub fn program_id() -> (r: Identity)
    ensures
        r.bytes@ == program_id_bytes(),
{
    let r = Identity {
        bytes: [
            4, 222, 189, 190, 195, 5, 30, 175,
            151, 62, 71, 132, 177, 69, 164, 213,
            218, 201, 42, 109, 25, 179, 166, 162,
            144, 206, 152, 252, 194, 146, 195, 30,
        ],
    };
    assert(r.bytes@ =~= program_id_bytes());
    r
}

/// Encodes `value` in eight bytes, least significant first.
pub fn encode_le(value: u64) -> (r: Vec<u8>)
    ensures
        r@ == le_bytes(value as nat, 8),
{
    let mut out: Vec<u8> = Vec::new();
    let mut rest: u64 = value;
    let mut i: usize = 0;
    while i < 8
        invariant
            i <= 8,
            out@.len() == i,
            out@.add(le_bytes(rest as nat, (8 - i) as nat)) == le_bytes(value as nat, 8),
        decreases 8 - i,
    {
        let ghost before = out@;
        out.push((rest % 256) as u8);
        proof {
            let tail = le_bytes((rest / 256) as nat, (8 - i - 1) as nat);
            assert(le_bytes(rest as nat, (8 - i) as nat) == seq![(rest % 256) as u8].add(tail));
            assert(out@.add(tail) =~= before.add(seq![(rest % 256) as u8].add(tail)));
        }
        rest = rest / 256;
        i += 1;
    }
    assert(out@.add(Seq::<u8>::empty()) =~= out@);
    out
}

/// The payload of a checked transfer: the tag 12, the amount in eight
/// bytes, least significant first, and the decimals.
pub open spec fn checked_transfer_data(amount: u64, decimals: u8) -> Seq<u8> {
    seq![12u8].add(le_bytes(amount as nat, 8)).push(decimals)
}

/// Whether `plan` is the checked transfer of `amount` from `source` to
/// `destination` at the Token-2022 program: it names the source writable,
/// the mint read-only, the destination writable and the authority as a
/// read-only signer.
pub open spec fn is_checked_transfer(
    plan: InstructionPlan,
    source: Identity,
    mint: Identity,
    destination: Identity,
    authority: Identity,
    amount: u64,
    decimals: u8,
) -> bool {
    &&& plan.program_id.bytes@ == token_2022_id_bytes()
    &&& plan.accounts@ == seq![
        (AccountRole { pubkey: source, is_signer: false, is_writable: true }),
        (AccountRole { pubkey: mint, is_signer: false, is_writable: false }),
        (AccountRole { pubkey: destination, is_signer: false, is_writable: true }),
        (AccountRole { pubkey: authority, is_signer: true, is_writable: false }),
    ]
    &&& plan.data@ == checked_transfer_data(amount, decimals)
}

/// Builds the checked transfer of `amount` from `source` to `destination`.
///
/// Trusted: calls `spl_token_2022::instruction::transfer_checked` for the
/// Token-2022 program with no further signers, and copies the instruction
/// field by field. The contract claims what that function's source shows:
/// it accepts the Token-2022 program; the accounts are the writable
/// source, the read-only mint, the writable destination and the read-only,
/// signing authority; the payload is the tag 12, the amount and the
/// decimals.
#[verifier::external_body]
fn checked_transfer(
    source: &Identity,
    mint: &Identity,
    destination: &Identity,
    authority: &Identity,
    amount: u64,
    decimals: u8,
) -> (r: Option<InstructionPlan>)
    ensures
        r is Some,
        is_checked_transfer(r.unwrap(), *source, *mint, *destination, *authority, amount, decimals),
{
    let key = |id: &Identity| solana_program::pubkey::Pubkey::new_from_array(id.bytes);
    let built = spl_token_2022::instruction::transfer_checked(
        &spl_token_2022::id(), &key(source), &key(mint), &key(destination), &key(authority),
        &[], amount, decimals,
    ).ok()?;
    let role = |m: &solana_program::instruction::AccountMeta| AccountRole {
        pubkey: Identity { bytes: m.pubkey.to_bytes() },
        is_signer: m.is_signer,
        is_writable: m.is_writable,
    };
    let program_id = Identity { bytes: built.program_id.to_bytes() };
    let accounts = built.accounts.iter().map(role).collect();
    Some(InstructionPlan { program_id, accounts, data: built.data })
}

/// The instruction that carries out a redirection: a checked transfer of
/// the whole amount from the source to the treasury, signed by the source.
/// A movement that passes through needs none.
pub fn redirect_instruction(routing: &Routing) -> (r: Option<InstructionPlan>)
    ensures
        *routing == Routing::PassThrough ==> r is None,
        *routing matches Routing::Redirected { source, mint, treasury, amount, decimals, credit }
            ==> r is Some && is_checked_transfer(
            r.unwrap(),
            source,
            mint,
            treasury,
            source,
            amount,
            decimals,
        ),
{
    match routing {
        Routing::PassThrough => None,
        Routing::Redirected { source, mint, treasury, amount, decimals, credit } => {
            checked_transfer(source, mint, treasury, source, *amount, *decimals)
        },
    }
}

/// The instruction that sells `amount` from `source` into the pool: it
/// names the pool read-only and the source writable, neither signing, and
/// carries the amount in eight bytes, least significant first.
pub fn raydium_swap_instruction(liquidity_pool: Identity, source: Identity, amount: u64) -> (r:
    Result<InstructionPlan, ErrorCode>)
    ensures
        r matches Ok(plan) && plan.program_id.bytes@ == token_2022_id_bytes() && plan.accounts@
            == seq![
            (AccountRole { pubkey: liquidity_pool, is_signer: false, is_writable: false }),
            (AccountRole { pubkey: source, is_signer: false, is_writable: true }),
        ] && plan.data@ == le_bytes(amount as nat, 8),
{
    let mut accounts: Vec<AccountRole> = Vec::new();
    accounts.push(AccountRole { pubkey: liquidity_pool, is_signer: false, is_writable: false });
    accounts.push(AccountRole { pubkey: source, is_signer: false, is_writable: true });
    assert(accounts@ =~= seq![
        (AccountRole { pubkey: liquidity_pool, is_signer: false, is_writable: false }),
        (AccountRole { pubkey: source, is_signer: false, is_writable: true }),
    ]);
    Ok(InstructionPlan { program_id: token_2022_program_id(), accounts, data: encode_le(amount) })
}

/// The share of the treasury that an automatic sale offers: a quarter.
pub open spec fn sale_share(balance: u64) -> int {
    balance * 25 / 100
}

/// Prepares the sale of a quarter of the treasury into the pool.
///
/// Fails with `LiquidityPoolNotSet` while no pool is configured, with the
/// error of reading the treasury's balance, and with `ArithmeticOverflow`
/// where 25 times the balance does not fit.
pub fn auto_sell_in_liquidity_pool(global: &GlobalState, project_wallet: &AccountSnapshot) -> (r:
    Result<InstructionPlan, ErrorCode>)
    ensures
        global.liquidity_pool.is_zero() ==> r == Err::<InstructionPlan, ErrorCode>(
            ErrorCode::LiquidityPoolNotSet,
        ),
        !global.liquidity_pool.is_zero() ==> match balance_spec(project_wallet.data@) {
            Err(e) => r == Err::<InstructionPlan, ErrorCode>(e),
            Ok(balance) => if balance * 25 > u64::MAX {
                r == Err::<InstructionPlan, ErrorCode>(ErrorCode::ArithmeticOverflow)
            } else {
                r matches Ok(plan) && plan.program_id.bytes@ == token_2022_id_bytes()
                    && plan.accounts@ == seq![
                    (AccountRole {
                        pubkey: global.liquidity_pool,
                        is_signer: false,
                        is_writable: false,
                    }),
                    (AccountRole {
                        pubkey: project_wallet.key,
                        is_signer: false,
                        is_writable: true,
                    }),
                ] && plan.data@ == le_bytes(sale_share(balance) as nat, 8)
            },
        },
{
    if global.liquidity_pool.is_unset() {
        return Err(ErrorCode::LiquidityPoolNotSet);
    }
    let balance: u64 = match get_token_balance(&project_wallet.data) {
        Ok(v) => v,
        Err(e) => {
            return Err(e);
        },
    };
    let scaled: u64 = match balance.checked_mul(25) {
        Some(v) => v,
        None => {
            return Err(ErrorCode::ArithmeticOverflow);
        },
    };
    raydium_swap_instruction(global.liquidity_pool, project_wallet.key, scaled / 100)
}

/// The payload that sets or clears the transfer hook of `mint`: the tag 0,
/// the mint, a byte that says whether a hook follows, and the hook.
pub open spec fn hook_update_data(mint: Identity, hook: Option<Identity>) -> Seq<u8> {
    let head = seq![0u8].add(mint.bytes@);
    match hook {
        Some(h) => head.push(1u8).add(h.bytes@),
        None => head.push(0u8),
    }
}

fn append_identity(out: &mut Vec<u8>, id: &Identity)
    ensures
        final(out)@ == old(out)@.add(id.bytes@),
{
    let mut i: usize = 0;
    while i < 32
        invariant
            i <= 32,
            out@ == old(out)@.add(id.bytes@.subrange(0, i as int)),
        decreases 32 - i,
    {
        out.push(id.bytes[i]);
        assert(out@ =~= old(out)@.add(id.bytes@.subrange(0, i + 1)));
        i += 1;
    }
    assert(id.bytes@.subrange(0, 32) =~= id.bytes@);
}

/// The instruction that sets or clears the transfer hook of `mint` at the
/// token program `token_program_id`: it names the mint writable and the
/// authority as a read-only signer.
pub fn update_transfer_hook(
    token_program_id: Identity,
    mint: Identity,
    hook_program_id: Option<Identity>,
    authority: Identity,
) -> (plan: InstructionPlan)
    ensures
        plan.program_id == token_program_id,
        plan.accounts@ == seq![
            (AccountRole { pubkey: mint, is_signer: false, is_writable: true }),
            (AccountRole { pubkey: authority, is_signer: true, is_writable: false }),
        ],
        plan.data@ == hook_update_data(mint, hook_program_id),
{
    let mut accounts: Vec<AccountRole> = Vec::new();
    accounts.push(AccountRole { pubkey: mint, is_signer: false, is_writable: true });
    accounts.push(AccountRole { pubkey: authority, is_signer: true, is_writable: false });
    assert(accounts@ =~= seq![
        (AccountRole { pubkey: mint, is_signer: false, is_writable: true }),
        (AccountRole { pubkey: authority, is_signer: true, is_writable: false }),
    ]);
    let mut data: Vec<u8> = Vec::new();
    data.push(0);
    append_identity(&mut data, &mint);
    match hook_program_id {
        Some(hook) => {
            data.push(1);
            append_identity(&mut data, &hook);
        },
        None => {
            data.push(0);
        },
    }
    assert(data@ =~= hook_update_data(mint, hook_program_id));
    InstructionPlan { program_id: token_program_id, accounts, data }
}

/// The instruction that makes this program the transfer hook of
/// `token_mint`, for its `authority` to sign and the host to invoke at the
/// Token-2022 program.
pub fn register_transfer_hook(token_mint: Identity, authority: Identity) -> (plan:
    InstructionPlan)
    ensures
        plan.program_id.bytes@ == token_2022_id_bytes(),
        plan.accounts@ == seq![
            (AccountRole { pubkey: token_mint, is_signer: false, is_writable: true }),
            (AccountRole { pubkey: authority, is_signer: true, is_writable: false }),
        ],
        plan.data@ == seq![0u8].add(token_mint.bytes@).push(1u8).add(program_id_bytes()),
{
    update_transfer_hook(token_2022_program_id(), token_mint, Some(program_id()), authority)
}

} // verus!
