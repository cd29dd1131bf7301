use vstd::prelude::*;
use vstd::utf8::encode_utf8;
use crate::accounts::StartMeme;
use crate::address::Address;
use crate::encoding::{le_u32, le_u64, put_bytes, put_le_u32, put_le_u64};
use crate::error::MemeError;
use crate::events::MemeStarted;
use crate::instruction::{AccountMeta, Instruction, InstructionView};
use crate::limits::{MAX_NAME_LEN, MAX_SYMBOL_LEN};
use crate::pda::{seeds_view, signer_seeds_for_vault, vault_signer_seeds};
use crate::state::MemeRegistry;

verus! {

/// The opcodes of the market maker's two instructions, as its interface description
/// publishes them.
#[derive(Clone, Copy, Debug, PartialEq, Eq)]
pub struct PumpInterface {
    pub create_discriminator: [u8; 8],
    pub buy_discriminator: [u8; 8],
}

/// The accounts of the call that opens the holding address's account for the new token.
#[derive(Clone, Copy, Debug, PartialEq, Eq)]
pub struct TokenAccountRequest {
    pub payer: Address,
    pub associated_token: Address,
    pub authority: Address,
    pub mint: Address,
    pub system_program: Address,
    pub token_program: Address,
    pub associated_token_program: Address,
}

/// The three calls that launch a campaign, in the order in which they are made, and the
/// seeds with which the holding address signs the first and the last.
#[derive(Clone, Debug, PartialEq, Eq)]
pub struct LaunchPlan {
    /// Creates the token and its market.
    pub create: Instruction,
    /// Opens the holding address's account for the token, unless it exists.
    pub token_account: TokenAccountRequest,
    /// Buys tokens with what was pooled.
    pub buy: Instruction,
    pub signer_seeds: Vec<Vec<u8>>,
}

/// What a launch plan says, as mathematical values.
pub struct LaunchPlanView {
    pub create: InstructionView,
    pub token_account: TokenAccountRequest,
    pub buy: InstructionView,
    pub signer_seeds: Seq<Seq<u8>>,
}

impl View for LaunchPlan {
    type V = LaunchPlanView;

    open spec fn view(&self) -> LaunchPlanView {
        LaunchPlanView {
            create: self.create@,
            token_account: self.token_account,
            buy: self.buy@,
            signer_seeds: seeds_view(self.signer_seeds@),
        }
    }
}

/// A string on the wire: the number of its bytes in four, then the bytes. A number that
/// four bytes cannot hold is cut to its low 32 bits.
pub open spec fn length_prefixed(bytes: Seq<u8>) -> Seq<u8> {
    le_u32((bytes.len() % 0x1_0000_0000) as u32) + bytes
}

/// The data of the instruction that creates a token: the opcode, then name, symbol and
/// address of the metadata, each with its length before it.
pub open spec fn create_data(
    discriminator: Seq<u8>,
    name: Seq<u8>,
    symbol: Seq<u8>,
    uri: Seq<u8>,
) -> Seq<u8> {
    discriminator + length_prefixed(name) + length_prefixed(symbol) + length_prefixed(uri)
}

/// The data of the instruction that buys tokens: the opcode, the number of tokens, the
/// most lamports to spend.
pub open spec fn buy_data(discriminator: Seq<u8>, buy_amount: u64, max_sol_cost: u64) -> Seq<u8> {
    discriminator + le_u64(buy_amount) + le_u64(max_sol_cost)
}

/// An account that an instruction may change.
pub open spec fn writable(pubkey: Address, is_signer: bool) -> AccountMeta {
    AccountMeta { pubkey, is_signer, is_writable: true }
}

/// An account that an instruction only reads.
pub open spec fn readonly(pubkey: Address, is_signer: bool) -> AccountMeta {
    AccountMeta { pubkey, is_signer, is_writable: false }
}

/// The accounts of the instruction that creates a token, in the market maker's order.
pub open spec fn create_accounts(ctx: StartMeme) -> Seq<AccountMeta> {
    seq![
        writable(ctx.mint, true),
        writable(ctx.mint_authority, false),
        writable(ctx.bonding_curve, false),
        writable(ctx.associated_bonding_curve, false),
        readonly(ctx.global, false),
        readonly(ctx.mpl_token_metadata, false),
        writable(ctx.metadata, false),
        writable(ctx.vault, true),
        readonly(ctx.system_program, false),
        readonly(ctx.token_program, false),
        readonly(ctx.associated_token_program, false),
        readonly(ctx.rent, false),
        readonly(ctx.event_authority, false),
        readonly(ctx.pump_program, false),
    ]
}

/// The accounts of the instruction that buys tokens, in the market maker's order.
pub open spec fn buy_accounts(ctx: StartMeme) -> Seq<AccountMeta> {
    seq![
        readonly(ctx.global, false),
        writable(ctx.fee_recipient, false),
        readonly(ctx.mint, false),
        writable(ctx.bonding_curve, false),
        writable(ctx.associated_bonding_curve, false),
        writable(ctx.associated_user, false),
        writable(ctx.vault, true),
        readonly(ctx.system_program, false),
        readonly(ctx.token_program, false),
        readonly(ctx.rent, false),
        readonly(ctx.event_authority, false),
        readonly(ctx.pump_program, false),
    ]
}

/// The accounts of the call that opens the holding address's token account: the caller
/// pays, the holding address owns.
pub open spec fn token_account_request(ctx: StartMeme) -> TokenAccountRequest {
    TokenAccountRequest {
        payer: ctx.authority,
        associated_token: ctx.associated_user,
        authority: ctx.vault,
        mint: ctx.mint,
        system_program: ctx.system_program,
        token_program: ctx.token_program,
        associated_token_program: ctx.associated_token_program,
    }
}

/// The plan of a launch that is not rejected.
pub open spec fn launch_plan(
    ctx: StartMeme,
    meme_id: Seq<u8>,
    name: Seq<u8>,
    symbol: Seq<u8>,
    uri: Seq<u8>,
    buy_amount: u64,
    max_sol_cost: u64,
    pump: PumpInterface,
) -> LaunchPlanView {
    LaunchPlanView {
        create: InstructionView {
            program_id: ctx.pump_program,
            accounts: create_accounts(ctx),
            data: create_data(pump.create_discriminator@, name, symbol, uri),
        },
        token_account: token_account_request(ctx),
        buy: InstructionView {
            program_id: ctx.pump_program,
            accounts: buy_accounts(ctx),
            data: buy_data(pump.buy_discriminator@, buy_amount, max_sol_cost),
        },
        signer_seeds: vault_signer_seeds(meme_id, ctx.vault_bump),
    }
}

/// Why a launch is rejected, if it is: the caller is not the campaign's creator, the name
/// or the symbol is too long, the campaign has a token already, or the token presented is
/// the all-zero address, which stands for no token. The first reason that holds, in this
/// order, is the one given.
pub open spec fn launch_rejection(ctx: StartMeme, name: Seq<u8>, symbol: Seq<u8>) -> Option<MemeError> {
    if ctx.authority != ctx.registry.authority {
        Some(MemeError::Unauthorized)
    } else if name.len() > MAX_NAME_LEN {
        Some(MemeError::NameTooLong)
    } else if symbol.len() > MAX_SYMBOL_LEN {
        Some(MemeError::SymbolTooLong)
    } else if ctx.registry.is_started() {
        Some(MemeError::AlreadyStarted)
    } else if ctx.mint == Address::spec_unset() {
        Some(MemeError::InvalidMint)
    } else {
        None
    }
}

/// Appends `bytes` to `out` with its length before it.
pub fn put_length_prefixed(out: &mut Vec<u8>, bytes: &[u8])
    ensures
        final(out)@ == old(out)@ + length_prefixed(bytes@),
{
    let len: u64 = bytes.len() as u64;
    put_le_u32(out, (len % 0x1_0000_0000) as u32);
    put_bytes(out, bytes);
    assert(out@ =~= old(out)@ + length_prefixed(bytes@));
}

/// The data of the instruction that creates a token.
pub fn encode_create(discriminator: &[u8; 8], name: &[u8], symbol: &[u8], uri: &[u8]) -> (r: Vec<u8>)
    ensures
        r@ == create_data(discriminator@, name@, symbol@, uri@),
{
    let mut r: Vec<u8> = Vec::new();
    put_bytes(&mut r, discriminator.as_slice());
    put_length_prefixed(&mut r, name);
    put_length_prefixed(&mut r, symbol);
    put_length_prefixed(&mut r, uri);
    assert(r@ =~= create_data(discriminator@, name@, symbol@, uri@));
    r
}

/// The data of the instruction that buys tokens.
pub fn encode_buy(discriminator: &[u8; 8], buy_amount: u64, max_sol_cost: u64) -> (r: Vec<u8>)
    ensures
        r@ == buy_data(discriminator@, buy_amount, max_sol_cost),
{
    let mut r: Vec<u8> = Vec::new();
    put_bytes(&mut r, discriminator.as_slice());
    put_le_u64(&mut r, buy_amount);
    put_le_u64(&mut r, max_sol_cost);
    assert(r@ =~= buy_data(discriminator@, buy_amount, max_sol_cost));
    r
}

/// The accounts of the instruction that creates a token.
pub fn create_account_metas(ctx: &StartMeme) -> (r: Vec<AccountMeta>)
    ensures
        r@ == create_accounts(*ctx),
{
    let mut r: Vec<AccountMeta> = Vec::new();
    r.push(AccountMeta::new(ctx.mint, true));
    r.push(AccountMeta::new(ctx.mint_authority, false));
    r.push(AccountMeta::new(ctx.bonding_curve, false));
    r.push(AccountMeta::new(ctx.associated_bonding_curve, false));
    r.push(AccountMeta::new_readonly(ctx.global, false));
    r.push(AccountMeta::new_readonly(ctx.mpl_token_metadata, false));
    r.push(AccountMeta::new(ctx.metadata, false));
    r.push(AccountMeta::new(ctx.vault, true));
    r.push(AccountMeta::new_readonly(ctx.system_program, false));
    r.push(AccountMeta::new_readonly(ctx.token_program, false));
    r.push(AccountMeta::new_readonly(ctx.associated_token_program, false));
    r.push(AccountMeta::new_readonly(ctx.rent, false));
    r.push(AccountMeta::new_readonly(ctx.event_authority, false));
    r.push(AccountMeta::new_readonly(ctx.pump_program, false));
    assert(r@ =~= create_accounts(*ctx));
    r
}

/// The accounts of the instruction that buys tokens.
pub fn buy_account_metas(ctx: &StartMeme) -> (r: Vec<AccountMeta>)
    ensures
        r@ == buy_accounts(*ctx),
{
    let mut r: Vec<AccountMeta> = Vec::new();
    r.push(AccountMeta::new_readonly(ctx.global, false));
    r.push(AccountMeta::new(ctx.fee_recipient, false));
    r.push(AccountMeta::new_readonly(ctx.mint, false));
    r.push(AccountMeta::new(ctx.bonding_curve, false));
    r.push(AccountMeta::new(ctx.associated_bonding_curve, false));
    r.push(AccountMeta::new(ctx.associated_user, false));
    r.push(AccountMeta::new(ctx.vault, true));
    r.push(AccountMeta::new_readonly(ctx.system_program, false));
    r.push(AccountMeta::new_readonly(ctx.token_program, false));
    r.push(AccountMeta::new_readonly(ctx.rent, false));
    r.push(AccountMeta::new_readonly(ctx.event_authority, false));
    r.push(AccountMeta::new_readonly(ctx.pump_program, false));
    assert(r@ =~= buy_accounts(*ctx));
    r
}

/// Whether a launch is rejected, and why.
pub fn check_launch(ctx: &StartMeme, name: &[u8], symbol: &[u8]) -> (r: Result<(), MemeError>)
    ensures
        r == match launch_rejection(*ctx, name@, symbol@) {
            Some(e) => Err::<(), MemeError>(e),
            None => Ok::<(), MemeError>(()),
        },
{
    if !ctx.authority.equals(&ctx.registry.authority) {
        return Err(MemeError::Unauthorized);
    }
    if name.len() > MAX_NAME_LEN {
        return Err(MemeError::NameTooLong);
    }
    if symbol.len() > MAX_SYMBOL_LEN {
        return Err(MemeError::SymbolTooLong);
    }
    if !ctx.registry.mint.is_unset() {
        return Err(MemeError::AlreadyStarted);
    }
    if ctx.mint.is_unset() {
        return Err(MemeError::InvalidMint);
    }
    Ok(())
}

/// The calls that launch the campaign of `ctx` with a token of the given name, symbol and
/// metadata address, each given as its bytes.
pub fn plan_launch(
    ctx: &StartMeme,
    meme_id: &[u8; 16],
    name: &[u8],
    symbol: &[u8],
    uri: &[u8],
    buy_amount: u64,
    max_sol_cost: u64,
    pump: &PumpInterface,
) -> (r: LaunchPlan)
    ensures
        r@ == launch_plan(*ctx, meme_id@, name@, symbol@, uri@, buy_amount, max_sol_cost, *pump),
{
    let create = Instruction {
        program_id: ctx.pump_program,
        accounts: create_account_metas(ctx),
        data: encode_create(&pump.create_discriminator, name, symbol, uri),
    };
    let buy = Instruction {
        program_id: ctx.pump_program,
        accounts: buy_account_metas(ctx),
        data: encode_buy(&pump.buy_discriminator, buy_amount, max_sol_cost),
    };
    let token_account = TokenAccountRequest {
        payer: ctx.authority,
        associated_token: ctx.associated_user,
        authority: ctx.vault,
        mint: ctx.mint,
        system_program: ctx.system_program,
        token_program: ctx.token_program,
        associated_token_program: ctx.associated_token_program,
    };
    let signer_seeds = signer_seeds_for_vault(meme_id, ctx.vault_bump);
    LaunchPlan { create, token_account, buy, signer_seeds }
}

/// Checks a launch and plans its calls. Only the campaign's creator may launch it; the
/// name may take 32 bytes and the symbol 10; and a campaign is launched only once. Nothing is changed: the calls
/// are made one after the other as `launch_advance` says, and when every one of them has
/// succeeded `record_launch` gives the campaign its token.
pub fn start_meme(
    ctx: &StartMeme,
    meme_id: [u8; 16],
    name: &str,
    symbol: &str,
    uri: &str,
    buy_amount: u64,
    max_sol_cost: u64,
    pump: &PumpInterface,
) -> (r: Result<LaunchPlan, MemeError>)
    ensures
        match launch_rejection(*ctx, encode_utf8(name@), encode_utf8(symbol@)) {
            Some(e) => r == Err::<LaunchPlan, MemeError>(e),
            None => r is Ok && r->Ok_0@ == launch_plan(
                *ctx,
                meme_id@,
                encode_utf8(name@),
                encode_utf8(symbol@),
                encode_utf8(uri@),
                buy_amount,
                max_sol_cost,
                *pump,
            ),
        },
{
    let name_bytes = name.as_bytes();
    let symbol_bytes = symbol.as_bytes();
    match check_launch(ctx, name_bytes, symbol_bytes) {
        Err(e) => Err(e),
        Ok(_) => Ok(
            plan_launch(
                ctx,
                &meme_id,
                name_bytes,
                symbol_bytes,
                uri.as_bytes(),
                buy_amount,
                max_sol_cost,
                pump,
            ),
        ),
    }
}

/// One of the three calls of a launch.
#[derive(Clone, Copy, Debug, PartialEq, Eq, Structural)]
pub enum LaunchStep {
    /// The market maker creates the token.
    CreateToken,
    /// The holding address's account for the token is opened.
    OpenTokenAccount,
    /// The market maker sells tokens to the holding address.
    BuyTokens,
}

/// What to do once a call of a launch has returned.
#[derive(Clone, Copy, Debug, PartialEq, Eq, Structural)]
pub enum LaunchVerdict {
    /// Make this call next.
    Continue(LaunchStep),
    /// Every call has succeeded: record the token.
    Complete,
    /// Give up, with the error that the failed call returned.
    Propagate,
    /// Give up, with this error.
    Reject(MemeError),
}

/// The first call of a launch.
pub open spec fn first_launch_step() -> LaunchStep {
    LaunchStep::CreateToken
}

/// What follows the call `step`: after a success the next call, or completion after the
/// last; after a failure the end of the launch. A token account that cannot be opened is
/// reported as such; the market maker's own failures are handed on as they are.
pub open spec fn launch_verdict(step: LaunchStep, succeeded: bool) -> LaunchVerdict {
    match step {
        LaunchStep::CreateToken => if succeeded {
            LaunchVerdict::Continue(LaunchStep::OpenTokenAccount)
        } else {
            LaunchVerdict::Propagate
        },
        LaunchStep::OpenTokenAccount => if succeeded {
            LaunchVerdict::Continue(LaunchStep::BuyTokens)
        } else {
            LaunchVerdict::Reject(MemeError::ATACreationFailed)
        },
        LaunchStep::BuyTokens => if succeeded {
            LaunchVerdict::Complete
        } else {
            LaunchVerdict::Propagate
        },
    }
}

/// The call that a launch starts with.
pub fn launch_begin() -> (r: LaunchStep)
    ensures
        r == first_launch_step(),
{
    LaunchStep::CreateToken
}

/// Decides what follows the call `step`, which has succeeded or failed.
pub fn launch_advance(step: LaunchStep, succeeded: bool) -> (r: LaunchVerdict)
    ensures
        r == launch_verdict(step, succeeded),
{
    match step {
        LaunchStep::CreateToken => if succeeded {
            LaunchVerdict::Continue(LaunchStep::OpenTokenAccount)
        } else {
            LaunchVerdict::Propagate
        },
        LaunchStep::OpenTokenAccount => if succeeded {
            LaunchVerdict::Continue(LaunchStep::BuyTokens)
        } else {
            LaunchVerdict::Reject(MemeError::ATACreationFailed)
        },
        LaunchStep::BuyTokens => if succeeded {
            LaunchVerdict::Complete
        } else {
            LaunchVerdict::Propagate
        },
    }
}

/// The outcome of a whole launch, from the outcomes of its calls: a call is made only if
/// the calls before it have succeeded.
pub open spec fn launch_outcome(created: bool, account_opened: bool, bought: bool) -> LaunchVerdict {
    match launch_verdict(LaunchStep::CreateToken, created) {
        LaunchVerdict::Continue(second) => match launch_verdict(second, account_opened) {
            LaunchVerdict::Continue(third) => launch_verdict(third, bought),
            verdict => verdict,
        },
        verdict => verdict,
    }
}

/// A launch is complete exactly when its three calls have succeeded, in their order. It
/// ends with the dedicated rejection exactly when the token was created and its account
/// could not be opened, and hands on the market maker's error otherwise.
pub proof fn launch_completes_after_three_successes(
    created: bool,
    account_opened: bool,
    bought: bool,
)
    ensures
        launch_outcome(created, account_opened, bought) == LaunchVerdict::Complete <==> created
            && account_opened && bought,
        launch_outcome(created, account_opened, bought) == LaunchVerdict::Reject(
            MemeError::ATACreationFailed,
        ) <==> created && !account_opened,
        launch_outcome(created, account_opened, bought) == LaunchVerdict::Propagate <==> !created
            || (account_opened && !bought),
        launch_verdict(first_launch_step(), true) == LaunchVerdict::Continue(
            LaunchStep::OpenTokenAccount,
        ),
        launch_verdict(LaunchStep::OpenTokenAccount, true) == LaunchVerdict::Continue(
            LaunchStep::BuyTokens,
        ),
{
}

/// The campaign after a recorded launch: it has its token, and nothing else has changed.
pub open spec fn launched(ctx: StartMeme) -> StartMeme {
    StartMeme { registry: MemeRegistry { mint: ctx.mint, ..ctx.registry }, ..ctx }
}

/// Gives the campaign its token, once every call of the launch has succeeded, and reports
/// the launch. The launch is checked as `start_meme` checks it, and a rejected one changes
/// nothing; an accepted one leaves the campaign started.
pub fn record_launch(
    ctx: &mut StartMeme,
    meme_id: [u8; 16],
    name: String,
    symbol: String,
    uri: String,
) -> (r: Result<MemeStarted, MemeError>)
    ensures
        match launch_rejection(*old(ctx), encode_utf8(name@), encode_utf8(symbol@)) {
            Some(e) => r == Err::<MemeStarted, MemeError>(e) && *final(ctx) == *old(ctx),
            None => {
                &&& *final(ctx) == launched(*old(ctx))
                &&& final(ctx).registry.is_started()
                &&& old(ctx).registry.wf() ==> final(ctx).registry.wf()
                &&& r == Ok::<MemeStarted, MemeError>(
                    MemeStarted {
                        meme_id,
                        mint: old(ctx).mint,
                        name,
                        symbol,
                        uri,
                        total_funds: old(ctx).registry.total_funds,
                    },
                )
            },
        },
{
    match check_launch(ctx, name.as_str().as_bytes(), symbol.as_str().as_bytes()) {
        Err(e) => Err(e),
        Ok(_) => {
            ctx.registry.mint = ctx.mint;
            Ok(
                MemeStarted {
                    meme_id,
                    mint: ctx.mint,
                    name,
                    symbol,
                    uri,
                    total_funds: ctx.registry.total_funds,
                },
            )
        },
    }
}

/// A campaign is launched once: after a recorded launch every further launch of it is
/// rejected, whatever token, name and symbol it comes with. The rejection says that the
/// campaign has been started whenever nothing that is checked before the token is wrong:
/// the caller is the creator, and name and symbol are within their lengths.
pub proof fn launch_happens_once(
    ctx: StartMeme,
    name: Seq<u8>,
    symbol: Seq<u8>,
    again: StartMeme,
    later_name: Seq<u8>,
    later_symbol: Seq<u8>,
)
    requires
        launch_rejection(ctx, name, symbol) is None,
        again.registry == launched(ctx).registry,
    ensures
        launch_rejection(again, later_name, later_symbol) is Some,
        again.authority == again.registry.authority && later_name.len() <= MAX_NAME_LEN
            && later_symbol.len() <= MAX_SYMBOL_LEN ==> launch_rejection(
            again,
            later_name,
            later_symbol,
        ) == Some(MemeError::AlreadyStarted),
{
}

/// An oversized name or symbol is reported as such to the campaign's creator, whether or
/// not the campaign has a token, and a name of 32 bytes and a symbol of 10 are not
/// oversized.
pub proof fn oversized_names_are_reported_first(ctx: StartMeme, name: Seq<u8>, symbol: Seq<u8>)
    requires
        ctx.authority == ctx.registry.authority,
    ensures
        name.len() > 32 ==> launch_rejection(ctx, name, symbol) == Some(MemeError::NameTooLong),
        name.len() <= 32 && symbol.len() > 10 ==> launch_rejection(ctx, name, symbol) == Some(
            MemeError::SymbolTooLong,
        ),
        name.len() <= 32 && symbol.len() <= 10 ==> launch_rejection(ctx, name, symbol) != Some(
            MemeError::NameTooLong,
        ) && launch_rejection(ctx, name, symbol) != Some(MemeError::SymbolTooLong),
{
}

} // verus!
