use vstd::prelude::*;
use crate::key::{seeds_view, Pubkey};

verus! {

/// An account as the runtime hands it over: its address, the program that
/// owns it, whether it signed the request, and its data.
pub struct AccountView {
    pub key: Pubkey,
    pub owner: Pubkey,
    pub is_signer: bool,
    pub data: Vec<u8>,
}

/// An account to create at a derived address, and the bytes to write at its
/// start. The creator signs for the address with `seeds` and `bump`.
pub struct Creation {
    pub address: Pubkey,
    pub seeds: Vec<Vec<u8>>,
    pub bump: u8,
    pub space: u64,
    pub owner: Pubkey,
    pub data: Vec<u8>,
}

/// Bytes to write at the start of an existing account.
pub struct Overwrite {
    pub address: Pubkey,
    pub data: Vec<u8>,
}

/// Tokens to mint to `destination`, signed by the program's mint authority.
#[derive(Clone, Copy)]
pub struct Reward {
    pub mint: Pubkey,
    pub authority: Pubkey,
    pub authority_bump: u8,
    pub destination: Pubkey,
    pub amount: u64,
}

/// What adding an introduction does: create the record and its counter,
/// then pay the author.
pub struct IntroPlan {
    pub intro: Creation,
    pub counter: Creation,
    pub reward: Reward,
}

/// What adding a reply does: create the reply, advance the counter, then pay
/// the replier.
pub struct ReplyPlan {
    pub reply: Creation,
    pub counter: Overwrite,
    pub reward: Reward,
}

/// What initialising the reward token does: create the mint account and hand
/// it to `authority`.
pub struct MintPlan {
    pub mint: Creation,
    pub authority: Pubkey,
    pub decimals: u8,
}

/// The work that one instruction asks of the runtime.
pub enum Plan {
    Intro(IntroPlan),
    Update(Overwrite),
    Reply(ReplyPlan),
    Mint(MintPlan),
}

pub struct CreationSpec {
    pub address: Seq<u8>,
    pub seeds: Seq<Seq<u8>>,
    pub bump: u8,
    pub space: u64,
    pub owner: Seq<u8>,
    pub data: Seq<u8>,
}

pub struct OverwriteSpec {
    pub address: Seq<u8>,
    pub data: Seq<u8>,
}

pub struct RewardSpec {
    pub mint: Seq<u8>,
    pub authority: Seq<u8>,
    pub authority_bump: u8,
    pub destination: Seq<u8>,
    pub amount: u64,
}

pub struct IntroPlanSpec {
    pub intro: CreationSpec,
    pub counter: CreationSpec,
    pub reward: RewardSpec,
}

pub struct ReplyPlanSpec {
    pub reply: CreationSpec,
    pub counter: OverwriteSpec,
    pub reward: RewardSpec,
}

pub struct MintPlanSpec {
    pub mint: CreationSpec,
    pub authority: Seq<u8>,
    pub decimals: u8,
}

pub enum PlanSpec {
    Intro(IntroPlanSpec),
    Update(OverwriteSpec),
    Reply(ReplyPlanSpec),
    Mint(MintPlanSpec),
}

impl View for Creation {
    type V = CreationSpec;

    open spec fn view(&self) -> CreationSpec {
        CreationSpec {
            address: self.address@,
            seeds: seeds_view(self.seeds@),
            bump: self.bump,
            space: self.space,
            owner: self.owner@,
            data: self.data@,
        }
    }
}

impl View for Overwrite {
    type V = OverwriteSpec;

    open spec fn view(&self) -> OverwriteSpec {
        OverwriteSpec { address: self.address@, data: self.data@ }
    }
}

impl View for Reward {
    type V = RewardSpec;

    open spec fn view(&self) -> RewardSpec {
        RewardSpec {
            mint: self.mint@,
            authority: self.authority@,
            authority_bump: self.authority_bump,
            destination: self.destination@,
            amount: self.amount,
        }
    }
}

impl View for IntroPlan {
    type V = IntroPlanSpec;

    open spec fn view(&self) -> IntroPlanSpec {
        IntroPlanSpec { intro: self.intro@, counter: self.counter@, reward: self.reward@ }
    }
}

impl View for ReplyPlan {
    type V = ReplyPlanSpec;

    open spec fn view(&self) -> ReplyPlanSpec {
        ReplyPlanSpec { reply: self.reply@, counter: self.counter@, reward: self.reward@ }
    }
}

impl View for MintPlan {
    type V = MintPlanSpec;

    open spec fn view(&self) -> MintPlanSpec {
        MintPlanSpec { mint: self.mint@, authority: self.authority@, decimals: self.decimals }
    }
}

impl View for Plan {
    type V = PlanSpec;

    open spec fn view(&self) -> PlanSpec {
        match self {
            Plan::Intro(p) => PlanSpec::Intro(p@),
            Plan::Update(p) => PlanSpec::Update(p@),
            Plan::Reply(p) => PlanSpec::Reply(p@),
            Plan::Mint(p) => PlanSpec::Mint(p@),
        }
    }
}

/// Base units in one whole reward token (the token has nine decimals).
pub const UNITS_PER_TOKEN: u64 = 1_000_000_000;

/// Decimal places of the reward token.
pub const TOKEN_DECIMALS: u8 = 9;

/// Whole tokens paid for a new introduction.
pub const INTRO_REWARD_TOKENS: u64 = 10;

/// Whole tokens paid for a new reply.
pub const REPLY_REWARD_TOKENS: u64 = 5;

/// Bytes of a token mint account.
pub const MINT_ACCOUNT_SIZE: u64 = 82;

/// Seed of the reward token's mint: "token_mint".
pub open spec fn mint_seed() -> Seq<u8> {
    seq![116u8, 111u8, 107u8, 101u8, 110u8, 95u8, 109u8, 105u8, 110u8, 116u8]
}

/// Seed of the mint authority: "token_auth".
pub open spec fn authority_seed() -> Seq<u8> {
    seq![116u8, 111u8, 107u8, 101u8, 110u8, 95u8, 97u8, 117u8, 116u8, 104u8]
}

/// Address of the token program.
pub open spec fn token_program_key() -> Seq<u8> {
    seq![
        6u8, 221u8, 246u8, 225u8, 215u8, 101u8, 161u8, 147u8, 217u8, 203u8, 225u8, 70u8, 206u8, 235u8, 121u8, 172u8,
        28u8, 180u8, 133u8, 237u8, 95u8, 91u8, 55u8, 145u8, 58u8, 140u8, 245u8, 133u8, 126u8, 255u8, 0u8, 169u8,
    ]
}

/// Address of the rent sysvar.
pub open spec fn rent_sysvar_key() -> Seq<u8> {
    seq![
        6u8, 167u8, 213u8, 23u8, 25u8, 44u8, 92u8, 81u8, 33u8, 140u8, 201u8, 76u8, 61u8, 74u8, 241u8, 127u8,
        88u8, 218u8, 238u8, 8u8, 155u8, 161u8, 253u8, 68u8, 227u8, 219u8, 217u8, 138u8, 0u8, 0u8, 0u8, 0u8,
    ]
}

/// Address of the system program: all zero.
pub open spec fn system_program_key() -> Seq<u8> {
    Seq::new(32, |i: int| 0u8)
}

pub fn mint_seed_bytes() -> (r: Vec<u8>)
    ensures
        r@ == mint_seed(),
{
    let r: Vec<u8> = vec![116u8, 111u8, 107u8, 101u8, 110u8, 95u8, 109u8, 105u8, 110u8, 116u8];
    assert(r@ =~= mint_seed());
    r
}

pub fn authority_seed_bytes() -> (r: Vec<u8>)
    ensures
        r@ == authority_seed(),
{
    let r: Vec<u8> = vec![116u8, 111u8, 107u8, 101u8, 110u8, 95u8, 97u8, 117u8, 116u8, 104u8];
    assert(r@ =~= authority_seed());
    r
}

pub fn token_program_id() -> (r: Pubkey)
    ensures
        r@ == token_program_key(),
{
    let r = Pubkey {
        bytes: [
            6u8, 221u8, 246u8, 225u8, 215u8, 101u8, 161u8, 147u8, 217u8, 203u8, 225u8, 70u8, 206u8, 235u8, 121u8, 172u8,
            28u8, 180u8, 133u8, 237u8, 95u8, 91u8, 55u8, 145u8, 58u8, 140u8, 245u8, 133u8, 126u8, 255u8, 0u8, 169u8,
        ],
    };
    assert(r@ =~= token_program_key());
    r
}

pub fn rent_sysvar_id() -> (r: Pubkey)
    ensures
        r@ == rent_sysvar_key(),
{
    let r = Pubkey {
        bytes: [
            6u8, 167u8, 213u8, 23u8, 25u8, 44u8, 92u8, 81u8, 33u8, 140u8, 201u8, 76u8, 61u8, 74u8, 241u8, 127u8,
            88u8, 218u8, 238u8, 8u8, 155u8, 161u8, 253u8, 68u8, 227u8, 219u8, 217u8, 138u8, 0u8, 0u8, 0u8, 0u8,
        ],
    };
    assert(r@ =~= rent_sysvar_key());
    r
}

pub fn system_program_id() -> (r: Pubkey)
    ensures
        r@ == system_program_key(),
{
    let r = Pubkey { bytes: [0u8; 32] };
    assert(r@ =~= system_program_key());
    r
}

} // verus!
