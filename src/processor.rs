use vstd::prelude::*;
use crate::bytes::{be64, be64_bytes, bytes_equal, dup};
use crate::error::{ProcessError, StudentIntroError};
use crate::instruction::{unpacked, InstructionSpec, StudentIntroInstruction};
use crate::key::{associated_token_address, ata_of, find_address, pda_of, seeds_view, Pubkey};
use crate::plan::{
    authority_seed, authority_seed_bytes, mint_seed, mint_seed_bytes, system_program_id, system_program_key,
    rent_sysvar_id, rent_sysvar_key, token_program_id, token_program_key, AccountView, Creation, CreationSpec,
    IntroPlan, IntroPlanSpec, MintPlan, MintPlanSpec, Overwrite, OverwriteSpec, Reward, RewardSpec, ReplyPlan,
    ReplyPlanSpec, Plan, PlanSpec, INTRO_REWARD_TOKENS, MINT_ACCOUNT_SIZE, REPLY_REWARD_TOKENS, TOKEN_DECIMALS, UNITS_PER_TOKEN,
};
use crate::state::{
    counter_bytes, counter_decoded, intro_bytes, intro_decoded, intro_size, is_utf8, push_key, reply_bytes,
    reply_decoded, reply_size, reply_tag, text_ok, IntroSpec, ReplySpec, StudentIntroAccountState,
    StudentIntroReply, StudentIntroReplyCounter, MAX_INTRO_SIZE,
};

verus! {

/// The record at the start of `data` is an introduction marked initialised.
pub open spec fn intro_initialized(data: Seq<u8>) -> bool {
    match intro_decoded(data) {
        Some(r) => r.is_initialized,
        None => false,
    }
}

/// The data at the start of `data` is a counter marked initialised.
pub open spec fn counter_initialized(data: Seq<u8>) -> bool {
    match counter_decoded(data) {
        Some(c) => c.is_initialized,
        None => false,
    }
}

pub open spec fn intro_result_view(r: Result<IntroPlan, ProcessError>) -> Result<IntroPlanSpec, ProcessError> {
    match r {
        Ok(p) => Ok(p@),
        Err(e) => Err(e),
    }
}

pub open spec fn incorrect() -> ProcessError {
    ProcessError::Custom(StudentIntroError::IncorrectAccountPassed)
}

pub open spec fn invalid_pda() -> ProcessError {
    ProcessError::Custom(StudentIntroError::InvalidPda)
}

/// The reward account, mint, authority and program accounts are the
/// expected ones. Indices are those of `a` for this operation.
pub open spec fn reward_accounts_ok(
    a: Seq<AccountView>,
    payer: int,
    mint_i: int,
    auth_i: int,
    ata_i: int,
    system_i: int,
    token_i: int,
    mint: Seq<u8>,
    auth: Seq<u8>,
) -> bool {
    &&& mint == a[mint_i].key@
    &&& auth == a[auth_i].key@
    &&& a[ata_i].key@ == ata_of(a[payer].key@, a[mint_i].key@)
    &&& a[token_i].key@ == token_program_key()
    &&& a[system_i].key@ == system_program_key()
}

/// What adding an introduction gives: every check in order, then the plan.
/// Accounts: author (signer), introduction, counter, mint, mint authority,
/// author's token account, system program, token program.
pub open spec fn add_intro_outcome(program: Seq<u8>, a: Seq<AccountView>, name: Seq<u8>, msg: Seq<u8>) -> Result<
    IntroPlanSpec,
    ProcessError,
> {
    if a.len() < 8 {
        Err(ProcessError::NotEnoughAccountKeys)
    } else if !a[0].is_signer {
        Err(ProcessError::MissingRequiredSignature)
    } else if !(text_ok(name) && text_ok(msg)) {
        Err(ProcessError::InvalidInstructionData)
    } else {
        match (
            pda_of(seq![a[0].key@, name], program),
            pda_of(seq![mint_seed()], program),
            pda_of(seq![authority_seed()], program),
        ) {
            (Some((pda, bump)), Some((mint, _)), Some((auth, auth_bump))) => {
                if pda != a[1].key@ {
                    Err(invalid_pda())
                } else if !reward_accounts_ok(a, 0, 3, 4, 5, 6, 7, mint, auth) {
                    Err(incorrect())
                } else if intro_size(name.len() as int, msg.len() as int) > MAX_INTRO_SIZE {
                    Err(ProcessError::Custom(StudentIntroError::InvalidDataLength))
                } else if intro_initialized(a[1].data@) {
                    Err(ProcessError::AccountAlreadyInitialized)
                } else {
                    match pda_of(seq![pda, reply_tag()], program) {
                        None => Err(ProcessError::DerivationExhausted),
                        Some((counter, counter_bump)) => {
                            if counter != a[2].key@ {
                                Err(invalid_pda())
                            } else if counter_initialized(a[2].data@) {
                                Err(ProcessError::AccountAlreadyInitialized)
                            } else {
                                Ok(
                                    IntroPlanSpec {
                                        intro: CreationSpec {
                                            address: pda,
                                            seeds: seq![a[0].key@, name],
                                            bump,
                                            space: MAX_INTRO_SIZE as u64,
                                            owner: program,
                                            data: intro_bytes(
                                                IntroSpec { is_initialized: true, identity: a[0].key@, name, msg },
                                            ),
                                        },
                                        counter: CreationSpec {
                                            address: counter,
                                            seeds: seq![pda, reply_tag()],
                                            bump: counter_bump,
                                            space: StudentIntroReplyCounter::SIZE as u64,
                                            owner: program,
                                            data: counter_bytes(
                                                StudentIntroReplyCounter { is_initialized: true, counter: 0 },
                                            ),
                                        },
                                        reward: RewardSpec {
                                            mint,
                                            authority: auth,
                                            authority_bump: auth_bump,
                                            destination: a[5].key@,
                                            amount: (INTRO_REWARD_TOKENS * UNITS_PER_TOKEN) as u64,
                                        },
                                    },
                                )
                            }
                        },
                    }
                }
            },
            _ => Err(ProcessError::DerivationExhausted),
        }
    }
}

fn key_bytes(k: &Pubkey) -> (r: Vec<u8>)
    ensures
        r@ == k@,
{
    let mut r: Vec<u8> = Vec::new();
    push_key(&mut r, k);
    assert(r@ =~= k@);
    r
}

fn one_seed(a: Vec<u8>) -> (r: Vec<Vec<u8>>)
    ensures
        seeds_view(r@) == seq![a@],
{
    let mut r: Vec<Vec<u8>> = Vec::new();
    r.push(a);
    assert(seeds_view(r@) =~= seq![a@]);
    r
}

fn two_seeds(a: Vec<u8>, b: Vec<u8>) -> (r: Vec<Vec<u8>>)
    ensures
        seeds_view(r@) == seq![a@, b@],
{
    let mut r: Vec<Vec<u8>> = Vec::new();
    r.push(a);
    r.push(b);
    assert(seeds_view(r@) =~= seq![a@, b@]);
    r
}

fn reply_seed_bytes() -> (r: Vec<u8>)
    ensures
        r@ == reply_tag(),
{
    let r: Vec<u8> = vec![114u8, 101u8, 112u8, 108u8, 121u8];
    assert(r@ =~= reply_tag());
    r
}

/// Checks the reward accounts as `reward_accounts_ok` states.
fn check_reward_accounts(
    accounts: &Vec<AccountView>,
    payer: usize,
    mint_i: usize,
    auth_i: usize,
    ata_i: usize,
    system_i: usize,
    token_i: usize,
    mint: &Pubkey,
    auth: &Pubkey,
) -> (r: bool)
    requires
        payer < accounts@.len(),
        mint_i < accounts@.len(),
        auth_i < accounts@.len(),
        ata_i < accounts@.len(),
        system_i < accounts@.len(),
        token_i < accounts@.len(),
    ensures
        r == reward_accounts_ok(
            accounts@,
            payer as int,
            mint_i as int,
            auth_i as int,
            ata_i as int,
            system_i as int,
            token_i as int,
            mint@,
            auth@,
        ),
{
    if !mint.equals(&accounts[mint_i].key) || !auth.equals(&accounts[auth_i].key) {
        return false;
    }
    let ata = associated_token_address(&accounts[payer].key, &accounts[mint_i].key);
    let token = token_program_id();
    let system = system_program_id();
    accounts[ata_i].key.equals(&ata) && accounts[token_i].key.equals(&token) && accounts[system_i].key.equals(&system)
}

/// Adds a student's introduction: checks every account, then plans the
/// creation of the introduction and its reply counter (at zero) and a reward
/// of ten tokens to the author.
pub fn add_student_intro(program_id: &Pubkey, accounts: &Vec<AccountView>, name: Vec<u8>, msg: Vec<u8>) -> (r: Result<
    IntroPlan,
    ProcessError,
>)
    ensures
        intro_result_view(r) == add_intro_outcome(program_id@, accounts@, name@, msg@),
{
    if accounts.len() < 8 {
        return Err(ProcessError::NotEnoughAccountKeys);
    }
    let initializer = accounts[0].key;
    if !accounts[0].is_signer {
        return Err(ProcessError::MissingRequiredSignature);
    }
    if name.len() > u32::MAX as usize || msg.len() > u32::MAX as usize || !is_utf8(&name) || !is_utf8(&msg) {
        return Err(ProcessError::InvalidInstructionData);
    }
    let intro_seeds = two_seeds(key_bytes(&initializer), dup(&name));
    let found = find_address(&intro_seeds, program_id);
    let mint_found = find_address(&one_seed(mint_seed_bytes()), program_id);
    let auth_found = find_address(&one_seed(authority_seed_bytes()), program_id);
    let (pda, bump, mint, auth, auth_bump) = match (found, mint_found, auth_found) {
        (Some((pda, bump)), Some((mint, _)), Some((auth, auth_bump))) => (pda, bump, mint, auth, auth_bump),
        _ => {
            return Err(ProcessError::DerivationExhausted);
        },
    };
    if !pda.equals(&accounts[1].key) {
        return Err(ProcessError::Custom(StudentIntroError::InvalidPda));
    }
    if !check_reward_accounts(accounts, 0, 3, 4, 5, 6, 7, &mint, &auth) {
        return Err(ProcessError::Custom(StudentIntroError::IncorrectAccountPassed));
    }
    if name.len() > MAX_INTRO_SIZE || msg.len() > MAX_INTRO_SIZE || StudentIntroAccountState::get_account_size(
        &name,
        &msg,
    ) > MAX_INTRO_SIZE {
        return Err(ProcessError::Custom(StudentIntroError::InvalidDataLength));
    }
    let already = match StudentIntroAccountState::decode(&accounts[1].data) {
        Some(st) => st.is_initialized,
        None => false,
    };
    if already {
        return Err(ProcessError::AccountAlreadyInitialized);
    }
    let counter_seeds = two_seeds(key_bytes(&pda), reply_seed_bytes());
    let (counter, counter_bump) = match find_address(&counter_seeds, program_id) {
        Some(found) => found,
        None => {
            return Err(ProcessError::DerivationExhausted);
        },
    };
    if !counter.equals(&accounts[2].key) {
        return Err(ProcessError::Custom(StudentIntroError::InvalidPda));
    }
    let counter_taken = match StudentIntroReplyCounter::decode(&accounts[2].data) {
        Some(c) => c.is_initialized,
        None => false,
    };
    if counter_taken {
        return Err(ProcessError::AccountAlreadyInitialized);
    }
    let record = StudentIntroAccountState { is_initialized: true, identity: initializer, name, msg };
    let intro_data = record.encode();
    let counter_record = StudentIntroReplyCounter { is_initialized: true, counter: 0 };
    let counter_data = counter_record.encode();
    let plan = IntroPlan {
        intro: Creation {
            address: pda,
            seeds: intro_seeds,
            bump,
            space: MAX_INTRO_SIZE as u64,
            owner: *program_id,
            data: intro_data,
        },
        counter: Creation {
            address: counter,
            seeds: counter_seeds,
            bump: counter_bump,
            space: StudentIntroReplyCounter::SIZE as u64,
            owner: *program_id,
            data: counter_data,
        },
        reward: Reward {
            mint,
            authority: auth,
            authority_bump: auth_bump,
            destination: accounts[5].key,
            amount: INTRO_REWARD_TOKENS * UNITS_PER_TOKEN,
        },
    };
    assert(plan@.intro.seeds == seq![accounts@[0].key@, name@]);
    Ok(plan)
}

pub open spec fn overwrite_result_view(r: Result<Overwrite, ProcessError>) -> Result<OverwriteSpec, ProcessError> {
    match r {
        Ok(p) => Ok(p@),
        Err(e) => Err(e),
    }
}

/// What updating an introduction gives. Accounts: author (signer),
/// introduction. Only the message changes; the name must be the stored one.
pub open spec fn update_intro_outcome(program: Seq<u8>, a: Seq<AccountView>, name: Seq<u8>, msg: Seq<u8>) -> Result<
    OverwriteSpec,
    ProcessError,
> {
    if a.len() < 2 {
        Err(ProcessError::NotEnoughAccountKeys)
    } else if !a[0].is_signer {
        Err(ProcessError::MissingRequiredSignature)
    } else if a[1].owner@ != program {
        Err(ProcessError::IllegalOwner)
    } else if !(text_ok(name) && text_ok(msg)) {
        Err(ProcessError::InvalidInstructionData)
    } else {
        match intro_decoded(a[1].data@) {
            None => Err(ProcessError::DecodeError),
            Some(st) => match pda_of(seq![a[0].key@, st.name], program) {
                None => Err(ProcessError::DerivationExhausted),
                Some((pda, _)) => {
                    if pda != a[1].key@ {
                        Err(invalid_pda())
                    } else if !st.is_initialized {
                        Err(ProcessError::Custom(StudentIntroError::UninitializedAccount))
                    } else if st.name != name {
                        Err(ProcessError::Custom(StudentIntroError::InvalidStudentName))
                    } else if intro_size(name.len() as int, msg.len() as int) > MAX_INTRO_SIZE {
                        Err(ProcessError::Custom(StudentIntroError::InvalidDataLength))
                    } else {
                        Ok(OverwriteSpec { address: a[1].key@, data: intro_bytes(IntroSpec { msg, ..st }) })
                    }
                },
            },
        }
    }
}

/// Replaces the message of an introduction that the signer wrote, keeping
/// its name.
pub fn update_student_intro(program_id: &Pubkey, accounts: &Vec<AccountView>, name: Vec<u8>, msg: Vec<u8>) -> (r:
    Result<Overwrite, ProcessError>)
    ensures
        overwrite_result_view(r) == update_intro_outcome(program_id@, accounts@, name@, msg@),
{
    if accounts.len() < 2 {
        return Err(ProcessError::NotEnoughAccountKeys);
    }
    if !accounts[0].is_signer {
        return Err(ProcessError::MissingRequiredSignature);
    }
    if !accounts[1].owner.equals(program_id) {
        return Err(ProcessError::IllegalOwner);
    }
    if name.len() > u32::MAX as usize || msg.len() > u32::MAX as usize || !is_utf8(&name) || !is_utf8(&msg) {
        return Err(ProcessError::InvalidInstructionData);
    }
    let stored = match StudentIntroAccountState::decode(&accounts[1].data) {
        Some(st) => st,
        None => {
            return Err(ProcessError::DecodeError);
        },
    };
    let seeds = two_seeds(key_bytes(&accounts[0].key), dup(&stored.name));
    let pda = match find_address(&seeds, program_id) {
        Some((pda, _)) => pda,
        None => {
            return Err(ProcessError::DerivationExhausted);
        },
    };
    if !pda.equals(&accounts[1].key) {
        return Err(ProcessError::Custom(StudentIntroError::InvalidPda));
    }
    if !stored.is_initialized {
        return Err(ProcessError::Custom(StudentIntroError::UninitializedAccount));
    }
    if !bytes_equal(&stored.name, &name) {
        return Err(ProcessError::Custom(StudentIntroError::InvalidStudentName));
    }
    if name.len() > MAX_INTRO_SIZE || msg.len() > MAX_INTRO_SIZE || StudentIntroAccountState::get_account_size(
        &name,
        &msg,
    ) > MAX_INTRO_SIZE {
        return Err(ProcessError::Custom(StudentIntroError::InvalidDataLength));
    }
    let updated = StudentIntroAccountState { msg, ..stored };
    let data = updated.encode();
    assert(updated@ == (IntroSpec { msg: msg@, ..stored@ }));
    Ok(Overwrite { address: accounts[1].key, data })
}

pub open spec fn reply_result_view(r: Result<ReplyPlan, ProcessError>) -> Result<ReplyPlanSpec, ProcessError> {
    match r {
        Ok(p) => Ok(p@),
        Err(e) => Err(e),
    }
}

/// The record at the start of `data` is a reply marked initialised.
pub open spec fn reply_initialized(data: Seq<u8>) -> bool {
    match reply_decoded(data) {
        Some(r) => r.is_initialized,
        None => false,
    }
}

/// What adding a reply gives once the introduction `pda` and its counter
/// `c` have passed their checks.
#[verifier::opaque]
pub open spec fn add_reply_tail(
    program: Seq<u8>,
    a: Seq<AccountView>,
    reply: Seq<u8>,
    pda: Seq<u8>,
    c: StudentIntroReplyCounter,
) -> Result<ReplyPlanSpec, ProcessError> {
    match (
        pda_of(seq![pda, be64(c.counter)], program),
        pda_of(seq![mint_seed()], program),
        pda_of(seq![authority_seed()], program),
    ) {
        (Some((reply_pda, reply_bump)), Some((mint, _)), Some((auth, auth_bump))) => {
            if reply_pda != a[3].key@ {
                Err(invalid_pda())
            } else if !reward_accounts_ok(a, 0, 4, 5, 6, 7, 8, mint, auth) {
                Err(incorrect())
            } else if reply_initialized(a[3].data@) {
                Err(ProcessError::AccountAlreadyInitialized)
            } else if c.counter == u64::MAX {
                Err(ProcessError::ArithmeticOverflow)
            } else {
                Ok(
                    ReplyPlanSpec {
                        reply: CreationSpec {
                            address: reply_pda,
                            seeds: seq![pda, be64(c.counter)],
                            bump: reply_bump,
                            space: reply_size(reply.len() as int) as u64,
                            owner: program,
                            data: reply_bytes(
                                ReplySpec {
                                    is_initialized: true,
                                    intro: a[1].key@,
                                    replier: a[0].key@,
                                    reply,
                                    count: c.counter,
                                },
                            ),
                        },
                        counter: OverwriteSpec {
                            address: a[2].key@,
                            data: counter_bytes(StudentIntroReplyCounter { counter: (c.counter + 1) as u64, ..c }),
                        },
                        reward: RewardSpec {
                            mint,
                            authority: auth,
                            authority_bump: auth_bump,
                            destination: a[6].key@,
                            amount: (REPLY_REWARD_TOKENS * UNITS_PER_TOKEN) as u64,
                        },
                    },
                )
            }
        },
        _ => Err(ProcessError::DerivationExhausted),
    }
}

/// What adding a reply gives. Accounts: replier (signer), introduction,
/// counter, reply, mint, mint authority, replier's token account, system
/// program, token program.
#[verifier::opaque]
pub open spec fn add_reply_outcome(program: Seq<u8>, a: Seq<AccountView>, reply: Seq<u8>) -> Result<
    ReplyPlanSpec,
    ProcessError,
> {
    if a.len() < 9 {
        Err(ProcessError::NotEnoughAccountKeys)
    } else if !a[0].is_signer {
        Err(ProcessError::MissingRequiredSignature)
    } else if !text_ok(reply) {
        Err(ProcessError::InvalidInstructionData)
    } else if a[1].owner@ != program {
        Err(ProcessError::IllegalOwner)
    } else {
        match intro_decoded(a[1].data@) {
            None => Err(ProcessError::DecodeError),
            Some(st) => if !st.is_initialized {
                Err(ProcessError::Custom(StudentIntroError::UninitializedAccount))
            } else {
                match pda_of(seq![st.identity, st.name], program) {
                    None => Err(ProcessError::DerivationExhausted),
                    Some((pda, _)) => if pda != a[1].key@ {
                        Err(invalid_pda())
                    } else if a[2].owner@ != program {
                        Err(ProcessError::IllegalOwner)
                    } else {
                        match pda_of(seq![pda, reply_tag()], program) {
                            None => Err(ProcessError::DerivationExhausted),
                            Some((counter, _)) => if counter != a[2].key@ {
                                Err(invalid_pda())
                            } else {
                                match counter_decoded(a[2].data@) {
                                    None => Err(ProcessError::DecodeError),
                                    Some(c) => if !c.is_initialized {
                                        Err(ProcessError::Custom(StudentIntroError::UninitializedAccount))
                                    } else {
                                        add_reply_tail(program, a, reply, pda, c)
                                    },
                                }
                            },
                        }
                    },
                }
            },
        }
    }
}

fn add_reply_rest(
    program_id: &Pubkey,
    accounts: &Vec<AccountView>,
    reply: Vec<u8>,
    pda: Pubkey,
    c: StudentIntroReplyCounter,
) -> (r: Result<ReplyPlan, ProcessError>)
    requires
        accounts@.len() >= 9,
        text_ok(reply@),
    ensures
        reply_result_view(r) == add_reply_tail(program_id@, accounts@, reply@, pda@, c),
{
    reveal(add_reply_tail);
    let reply_seeds = two_seeds(key_bytes(&pda), be64_bytes(c.counter));
    let found = find_address(&reply_seeds, program_id);
    let mint_found = find_address(&one_seed(mint_seed_bytes()), program_id);
    let auth_found = find_address(&one_seed(authority_seed_bytes()), program_id);
    let (reply_pda, reply_bump, mint, auth, auth_bump) = match (found, mint_found, auth_found) {
        (Some((p, b)), Some((mint, _)), Some((auth, auth_bump))) => (p, b, mint, auth, auth_bump),
        _ => {
            return Err(ProcessError::DerivationExhausted);
        },
    };
    if !reply_pda.equals(&accounts[3].key) {
        return Err(ProcessError::Custom(StudentIntroError::InvalidPda));
    }
    if !check_reward_accounts(accounts, 0, 4, 5, 6, 7, 8, &mint, &auth) {
        return Err(ProcessError::Custom(StudentIntroError::IncorrectAccountPassed));
    }
    let taken = match StudentIntroReply::decode(&accounts[3].data) {
        Some(existing) => existing.is_initialized,
        None => false,
    };
    if taken {
        return Err(ProcessError::AccountAlreadyInitialized);
    }
    if c.counter == u64::MAX {
        return Err(ProcessError::ArithmeticOverflow);
    }
    let space: u64 = 86 + reply.len() as u64;
    let record = StudentIntroReply {
        is_initialized: true,
        intro: accounts[1].key,
        replier: accounts[0].key,
        reply,
        count: c.counter,
    };
    let reply_data = record.encode();
    let next = StudentIntroReplyCounter { counter: c.counter + 1, ..c };
    let counter_data = next.encode();
    Ok(
        ReplyPlan {
            reply: Creation {
                address: reply_pda,
                seeds: reply_seeds,
                bump: reply_bump,
                space,
                owner: *program_id,
                data: reply_data,
            },
            counter: Overwrite { address: accounts[2].key, data: counter_data },
            reward: Reward {
                mint,
                authority: auth,
                authority_bump: auth_bump,
                destination: accounts[6].key,
                amount: REPLY_REWARD_TOKENS * UNITS_PER_TOKEN,
            },
        },
    )
}

/// Adds a reply to an introduction: checks every account, then plans the
/// reply record at the counter's current value, the counter's increment, and
/// a reward of five tokens to the replier.
pub fn add_reply(program_id: &Pubkey, accounts: &Vec<AccountView>, reply: Vec<u8>) -> (r: Result<
    ReplyPlan,
    ProcessError,
>)
    ensures
        reply_result_view(r) == add_reply_outcome(program_id@, accounts@, reply@),
{
    reveal(add_reply_outcome);
    if accounts.len() < 9 {
        return Err(ProcessError::NotEnoughAccountKeys);
    }
    if !accounts[0].is_signer {
        return Err(ProcessError::MissingRequiredSignature);
    }
    if reply.len() > u32::MAX as usize || !is_utf8(&reply) {
        return Err(ProcessError::InvalidInstructionData);
    }
    if !accounts[1].owner.equals(program_id) {
        return Err(ProcessError::IllegalOwner);
    }
    let intro = match StudentIntroAccountState::decode(&accounts[1].data) {
        Some(st) => st,
        None => {
            return Err(ProcessError::DecodeError);
        },
    };
    if !intro.is_initialized {
        return Err(ProcessError::Custom(StudentIntroError::UninitializedAccount));
    }
    let seeds = two_seeds(key_bytes(&intro.identity), dup(&intro.name));
    let pda = match find_address(&seeds, program_id) {
        Some((pda, _)) => pda,
        None => {
            return Err(ProcessError::DerivationExhausted);
        },
    };
    if !pda.equals(&accounts[1].key) {
        return Err(ProcessError::Custom(StudentIntroError::InvalidPda));
    }
    if !accounts[2].owner.equals(program_id) {
        return Err(ProcessError::IllegalOwner);
    }
    let counter_seeds = two_seeds(key_bytes(&pda), reply_seed_bytes());
    let counter = match find_address(&counter_seeds, program_id) {
        Some((counter, _)) => counter,
        None => {
            return Err(ProcessError::DerivationExhausted);
        },
    };
    if !counter.equals(&accounts[2].key) {
        return Err(ProcessError::Custom(StudentIntroError::InvalidPda));
    }
    let c = match StudentIntroReplyCounter::decode(&accounts[2].data) {
        Some(c) => c,
        None => {
            return Err(ProcessError::DecodeError);
        },
    };
    if !c.is_initialized {
        return Err(ProcessError::Custom(StudentIntroError::UninitializedAccount));
    }
    add_reply_rest(program_id, accounts, reply, pda, c)
}

pub open spec fn mint_result_view(r: Result<MintPlan, ProcessError>) -> Result<MintPlanSpec, ProcessError> {
    match r {
        Ok(p) => Ok(p@),
        Err(e) => Err(e),
    }
}

/// What initialising the reward token gives. Accounts: payer (signer),
/// mint, mint authority, system program, token program, rent sysvar.
pub open spec fn init_mint_outcome(program: Seq<u8>, a: Seq<AccountView>) -> Result<MintPlanSpec, ProcessError> {
    if a.len() < 6 {
        Err(ProcessError::NotEnoughAccountKeys)
    } else if !a[0].is_signer {
        Err(ProcessError::MissingRequiredSignature)
    } else {
        match (pda_of(seq![mint_seed()], program), pda_of(seq![authority_seed()], program)) {
            (Some((mint, mint_bump)), Some((auth, _))) => {
                if mint != a[1].key@ || auth != a[2].key@ || a[3].key@ != system_program_key() || a[4].key@
                    != token_program_key() || a[5].key@ != rent_sysvar_key() {
                    Err(incorrect())
                } else {
                    Ok(
                        MintPlanSpec {
                            mint: CreationSpec {
                                address: mint,
                                seeds: seq![mint_seed()],
                                bump: mint_bump,
                                space: MINT_ACCOUNT_SIZE,
                                owner: token_program_key(),
                                data: Seq::empty(),
                            },
                            authority: auth,
                            decimals: TOKEN_DECIMALS,
                        },
                    )
                }
            },
            _ => Err(ProcessError::DerivationExhausted),
        }
    }
}

/// Sets up the reward token: checks the accounts, then plans the creation of
/// the mint at its derived address, owned by the token program, with the
/// derived mint authority.
pub fn initialize_mint_account(program_id: &Pubkey, accounts: &Vec<AccountView>) -> (r: Result<
    MintPlan,
    ProcessError,
>)
    ensures
        mint_result_view(r) == init_mint_outcome(program_id@, accounts@),
{
    if accounts.len() < 6 {
        return Err(ProcessError::NotEnoughAccountKeys);
    }
    if !accounts[0].is_signer {
        return Err(ProcessError::MissingRequiredSignature);
    }
    let mint_seeds = one_seed(mint_seed_bytes());
    let mint_found = find_address(&mint_seeds, program_id);
    let auth_found = find_address(&one_seed(authority_seed_bytes()), program_id);
    let (mint, mint_bump, auth) = match (mint_found, auth_found) {
        (Some((mint, mint_bump)), Some((auth, _))) => (mint, mint_bump, auth),
        _ => {
            return Err(ProcessError::DerivationExhausted);
        },
    };
    let system = system_program_id();
    let token = token_program_id();
    let rent = rent_sysvar_id();
    if !mint.equals(&accounts[1].key) || !auth.equals(&accounts[2].key) || !accounts[3].key.equals(&system)
        || !accounts[4].key.equals(&token) || !accounts[5].key.equals(&rent) {
        return Err(ProcessError::Custom(StudentIntroError::IncorrectAccountPassed));
    }
    let plan = MintPlan {
        mint: Creation {
            address: mint,
            seeds: mint_seeds,
            bump: mint_bump,
            space: MINT_ACCOUNT_SIZE,
            owner: token,
            data: Vec::new(),
        },
        authority: auth,
        decimals: TOKEN_DECIMALS,
    };
    assert(plan@.mint.data =~= Seq::<u8>::empty());
    Ok(plan)
}

pub open spec fn plan_result_view(r: Result<Plan, ProcessError>) -> Result<PlanSpec, ProcessError> {
    match r {
        Ok(p) => Ok(p@),
        Err(e) => Err(e),
    }
}

/// What an instruction gives: the outcome of the operation that its bytes
/// encode, or `InvalidInstructionData` where they encode none.
pub open spec fn process_outcome(program: Seq<u8>, a: Seq<AccountView>, data: Seq<u8>) -> Result<
    PlanSpec,
    ProcessError,
> {
    match unpacked(data) {
        None => Err(ProcessError::InvalidInstructionData),
        Some(InstructionSpec::AddStudentIntro { name, msg }) => match add_intro_outcome(program, a, name, msg) {
            Ok(p) => Ok(PlanSpec::Intro(p)),
            Err(e) => Err(e),
        },
        Some(InstructionSpec::UpdateStudentIntro { name, msg }) => match update_intro_outcome(program, a, name, msg) {
            Ok(p) => Ok(PlanSpec::Update(p)),
            Err(e) => Err(e),
        },
        Some(InstructionSpec::AddReply { reply }) => match add_reply_outcome(program, a, reply) {
            Ok(p) => Ok(PlanSpec::Reply(p)),
            Err(e) => Err(e),
        },
        Some(InstructionSpec::InitializeMint) => match init_mint_outcome(program, a) {
            Ok(p) => Ok(PlanSpec::Mint(p)),
            Err(e) => Err(e),
        },
    }
}

/// Decodes an instruction and runs the operation it names.
pub fn process_instruction(program_id: &Pubkey, accounts: &Vec<AccountView>, instruction_data: &Vec<u8>) -> (r:
    Result<Plan, ProcessError>)
    ensures
        plan_result_view(r) == process_outcome(program_id@, accounts@, instruction_data@),
{
    let instruction = match StudentIntroInstruction::unpack(instruction_data) {
        Ok(i) => i,
        Err(e) => {
            return Err(e);
        },
    };
    match instruction {
        StudentIntroInstruction::AddStudentIntro { name, msg } => match add_student_intro(
            program_id,
            accounts,
            name,
            msg,
        ) {
            Ok(p) => Ok(Plan::Intro(p)),
            Err(e) => Err(e),
        },
        StudentIntroInstruction::UpdateStudentIntro { name, msg } => match update_student_intro(
            program_id,
            accounts,
            name,
            msg,
        ) {
            Ok(p) => Ok(Plan::Update(p)),
            Err(e) => Err(e),
        },
        StudentIntroInstruction::AddReply { reply } => match add_reply(program_id, accounts, reply) {
            Ok(p) => Ok(Plan::Reply(p)),
            Err(e) => Err(e),
        },
        StudentIntroInstruction::InitializeMint => match initialize_mint_account(program_id, accounts) {
            Ok(p) => Ok(Plan::Mint(p)),
            Err(e) => Err(e),
        },
    }
}

} // verus!
