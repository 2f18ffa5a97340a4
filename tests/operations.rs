use solana_program::program_pack::Pack;
use solana_program::pubkey::Pubkey as SolKey;
use student_intro::error::{ProcessError, StudentIntroError};
use student_intro::key::Pubkey;
use student_intro::plan::{AccountView, Plan};
use student_intro::processor::{
    add_reply, add_student_intro, initialize_mint_account, process_instruction, update_student_intro,
};
use student_intro::state::{StudentIntroAccountState, StudentIntroReply, StudentIntroReplyCounter};

fn k(p: &SolKey) -> Pubkey {
    Pubkey::new_from_array(p.to_bytes())
}

fn acct(key: &SolKey, owner: &SolKey, is_signer: bool, data: Vec<u8>) -> AccountView {
    AccountView { key: k(key), owner: k(owner), is_signer, data }
}

struct Env {
    program: SolKey,
    mint: SolKey,
    auth: SolKey,
}

fn env() -> Env {
    let program = SolKey::new_unique();
    let (mint, _) = SolKey::find_program_address(&[b"token_mint"], &program);
    let (auth, _) = SolKey::find_program_address(&[b"token_auth"], &program);
    Env { program, mint, auth }
}

fn intro_address(e: &Env, author: &SolKey, name: &str) -> SolKey {
    SolKey::find_program_address(&[author.as_ref(), name.as_bytes()], &e.program).0
}

fn counter_address(e: &Env, intro: &SolKey) -> SolKey {
    SolKey::find_program_address(&[intro.as_ref(), b"reply"], &e.program).0
}

fn reply_address(e: &Env, intro: &SolKey, n: u64) -> SolKey {
    SolKey::find_program_address(&[intro.as_ref(), n.to_be_bytes().as_ref()], &e.program).0
}

fn intro_accounts(e: &Env, author: &SolKey, name: &str) -> Vec<AccountView> {
    let system = solana_program::system_program::id();
    let intro = intro_address(e, author, name);
    let counter = counter_address(e, &intro);
    let ata = spl_associated_token_account::get_associated_token_address(author, &e.mint);
    vec![
        acct(author, &system, true, vec![]),
        acct(&intro, &system, false, vec![]),
        acct(&counter, &system, false, vec![]),
        acct(&e.mint, &spl_token::id(), false, vec![]),
        acct(&e.auth, &system, false, vec![]),
        acct(&ata, &spl_token::id(), false, vec![]),
        acct(&system, &system, false, vec![]),
        acct(&spl_token::id(), &system, false, vec![]),
    ]
}

fn padded(data: &[u8], size: usize) -> Vec<u8> {
    let mut v = data.to_vec();
    v.resize(size, 0);
    v
}

/// Accounts for a reply once the introduction and its counter hold `intro_data` and `counter_data`.
fn reply_accounts(
    e: &Env,
    replier: &SolKey,
    author: &SolKey,
    name: &str,
    intro_data: Vec<u8>,
    counter_data: Vec<u8>,
    n: u64,
) -> Vec<AccountView> {
    let system = solana_program::system_program::id();
    let intro = intro_address(e, author, name);
    let counter = counter_address(e, &intro);
    let reply = reply_address(e, &intro, n);
    let ata = spl_associated_token_account::get_associated_token_address(replier, &e.mint);
    vec![
        acct(replier, &system, true, vec![]),
        acct(&intro, &e.program, false, intro_data),
        acct(&counter, &e.program, false, counter_data),
        acct(&reply, &system, false, vec![]),
        acct(&e.mint, &spl_token::id(), false, vec![]),
        acct(&e.auth, &system, false, vec![]),
        acct(&ata, &spl_token::id(), false, vec![]),
        acct(&system, &system, false, vec![]),
        acct(&spl_token::id(), &system, false, vec![]),
    ]
}

fn mint_accounts(e: &Env, payer: &SolKey) -> Vec<AccountView> {
    let system = solana_program::system_program::id();
    vec![
        acct(payer, &system, true, vec![]),
        acct(&e.mint, &system, false, vec![]),
        acct(&e.auth, &system, false, vec![]),
        acct(&system, &system, false, vec![]),
        acct(&spl_token::id(), &system, false, vec![]),
        acct(&solana_program::sysvar::rent::id(), &system, false, vec![]),
    ]
}

#[test]
fn end_to_end_mint_intro_reply() {
    let e = env();
    let a = SolKey::new_unique();
    let b = SolKey::new_unique();

    let mint_plan = initialize_mint_account(&k(&e.program), &mint_accounts(&e, &a)).ok().unwrap();
    assert_eq!(mint_plan.mint.address.to_bytes(), e.mint.to_bytes());
    assert_eq!(mint_plan.authority.to_bytes(), e.auth.to_bytes());
    assert_eq!(mint_plan.decimals, 9);
    assert_eq!(mint_plan.mint.space, spl_token::state::Mint::LEN as u64);
    assert_eq!(mint_plan.mint.owner.to_bytes(), spl_token::id().to_bytes());

    let name = "Naruto";
    let msg = "Developing jutsu";
    let accounts = intro_accounts(&e, &a, name);
    let plan = add_student_intro(&k(&e.program), &accounts, name.as_bytes().to_vec(), msg.as_bytes().to_vec())
        .ok()
        .unwrap();
    let intro = intro_address(&e, &a, name);
    assert_eq!(plan.intro.address.to_bytes(), intro.to_bytes());
    assert_eq!(plan.intro.space, 1000);
    assert_eq!(plan.counter.address.to_bytes(), counter_address(&e, &intro).to_bytes());
    assert_eq!(plan.reward.amount, 10 * solana_program::native_token::LAMPORTS_PER_SOL);
    assert_eq!(
        plan.reward.destination.to_bytes(),
        spl_associated_token_account::get_associated_token_address(&a, &e.mint).to_bytes()
    );
    let stored = StudentIntroAccountState::decode(&plan.intro.data).unwrap();
    assert!(stored.is_initialized);
    assert_eq!(stored.identity.to_bytes(), a.to_bytes());
    assert_eq!(stored.name, name.as_bytes().to_vec());
    assert_eq!(stored.msg, msg.as_bytes().to_vec());

    let intro_data = padded(&plan.intro.data, 1000);
    let counter_data = plan.counter.data.clone();
    let accounts = reply_accounts(&e, &b, &a, name, intro_data.clone(), counter_data, 0);
    let reply = add_reply(&k(&e.program), &accounts, "All the best".as_bytes().to_vec()).ok().unwrap();
    assert_eq!(reply.reply.address.to_bytes(), reply_address(&e, &intro, 0).to_bytes());
    assert_eq!(reply.reward.amount, 5 * solana_program::native_token::LAMPORTS_PER_SOL);
    assert_eq!(
        reply.reward.destination.to_bytes(),
        spl_associated_token_account::get_associated_token_address(&b, &e.mint).to_bytes()
    );
    let record = StudentIntroReply::decode(&reply.reply.data).unwrap();
    assert_eq!(record.replier.to_bytes(), b.to_bytes());
    assert_eq!(record.intro.to_bytes(), intro.to_bytes());
    assert_eq!(record.count, 0);
    assert_eq!(record.reply, "All the best".as_bytes().to_vec());
    assert_eq!(reply.reply.space as usize, reply.reply.data.len());
    let counter = StudentIntroReplyCounter::decode(&reply.counter.data).unwrap();
    assert_eq!(counter.counter, 1);
    assert_eq!(reply.counter.address.to_bytes(), counter_address(&e, &intro).to_bytes());
    // The introduction itself is left as it was.
    let still = StudentIntroAccountState::decode(&intro_data).unwrap();
    assert_eq!(still.msg, msg.as_bytes().to_vec());
}

#[test]
fn add_intro_twice_is_already_initialized() {
    let e = env();
    let a = SolKey::new_unique();
    let accounts = intro_accounts(&e, &a, "Naruto");
    let plan = add_student_intro(&k(&e.program), &accounts, b"Naruto".to_vec(), b"first".to_vec()).ok().unwrap();
    let mut again = intro_accounts(&e, &a, "Naruto");
    again[1].data = padded(&plan.intro.data, 1000);
    let r = add_student_intro(&k(&e.program), &again, b"Naruto".to_vec(), b"second".to_vec());
    assert_eq!(r.err(), Some(ProcessError::AccountAlreadyInitialized));
    let first = StudentIntroAccountState::decode(&again[1].data).unwrap();
    assert_eq!(first.msg, b"first".to_vec());
}

#[test]
fn update_with_other_name_is_invalid_student_name() {
    let e = env();
    let a = SolKey::new_unique();
    let plan = add_student_intro(&k(&e.program), &intro_accounts(&e, &a, "Naruto"), b"Naruto".to_vec(), b"hi".to_vec())
        .ok()
        .unwrap();
    let system = solana_program::system_program::id();
    let intro = intro_address(&e, &a, "Naruto");
    let stored = padded(&plan.intro.data, 1000);
    let accounts = vec![acct(&a, &system, true, vec![]), acct(&intro, &e.program, false, stored.clone())];
    let r = update_student_intro(&k(&e.program), &accounts, b"Sasuke".to_vec(), b"changed".to_vec());
    assert_eq!(r.err(), Some(ProcessError::Custom(StudentIntroError::InvalidStudentName)));
    assert_eq!(StudentIntroAccountState::decode(&accounts[1].data).unwrap().msg, b"hi".to_vec());

    let ok = update_student_intro(&k(&e.program), &accounts, b"Naruto".to_vec(), b"Exploring solana ecosystem".to_vec())
        .ok()
        .unwrap();
    assert_eq!(ok.address.to_bytes(), intro.to_bytes());
    let updated = StudentIntroAccountState::decode(&ok.data).unwrap();
    assert_eq!(updated.name, b"Naruto".to_vec());
    assert_eq!(updated.msg, b"Exploring solana ecosystem".to_vec());
    assert_eq!(updated.identity.to_bytes(), a.to_bytes());
}

#[test]
fn update_errors() {
    let e = env();
    let a = SolKey::new_unique();
    let plan = add_student_intro(&k(&e.program), &intro_accounts(&e, &a, "Naruto"), b"Naruto".to_vec(), b"hi".to_vec())
        .ok()
        .unwrap();
    let system = solana_program::system_program::id();
    let intro = intro_address(&e, &a, "Naruto");
    let stored = padded(&plan.intro.data, 1000);
    let p = k(&e.program);

    let unsigned = vec![acct(&a, &system, false, vec![]), acct(&intro, &e.program, false, stored.clone())];
    assert_eq!(update_student_intro(&p, &unsigned, b"Naruto".to_vec(), b"x".to_vec()).err(), Some(ProcessError::MissingRequiredSignature));

    let foreign = vec![acct(&a, &system, true, vec![]), acct(&intro, &system, false, stored.clone())];
    assert_eq!(update_student_intro(&p, &foreign, b"Naruto".to_vec(), b"x".to_vec()).err(), Some(ProcessError::IllegalOwner));

    let other = SolKey::new_unique();
    let stranger = vec![acct(&other, &system, true, vec![]), acct(&intro, &e.program, false, stored.clone())];
    assert_eq!(
        update_student_intro(&p, &stranger, b"Naruto".to_vec(), b"x".to_vec()).err(),
        Some(ProcessError::Custom(StudentIntroError::InvalidPda))
    );

    let mut cleared = stored.clone();
    cleared[9] = 0;
    let uninit = vec![acct(&a, &system, true, vec![]), acct(&intro, &e.program, false, cleared)];
    assert_eq!(
        update_student_intro(&p, &uninit, b"Naruto".to_vec(), b"x".to_vec()).err(),
        Some(ProcessError::Custom(StudentIntroError::UninitializedAccount))
    );

    let garbage = vec![acct(&a, &system, true, vec![]), acct(&intro, &e.program, false, vec![0u8; 1000])];
    assert_eq!(update_student_intro(&p, &garbage, b"Naruto".to_vec(), b"x".to_vec()).err(), Some(ProcessError::DecodeError));

    let long = vec![b'm'; 1000];
    let ok_accounts = vec![acct(&a, &system, true, vec![]), acct(&intro, &e.program, false, stored)];
    assert_eq!(
        update_student_intro(&p, &ok_accounts, b"Naruto".to_vec(), long).err(),
        Some(ProcessError::Custom(StudentIntroError::InvalidDataLength))
    );
    let one = vec![acct(&a, &system, true, vec![])];
    assert_eq!(update_student_intro(&p, &one, b"Naruto".to_vec(), b"x".to_vec()).err(), Some(ProcessError::NotEnoughAccountKeys));
}

#[test]
fn replies_get_consecutive_numbers() {
    let e = env();
    let a = SolKey::new_unique();
    let b = SolKey::new_unique();
    let plan = add_student_intro(&k(&e.program), &intro_accounts(&e, &a, "Naruto"), b"Naruto".to_vec(), b"hi".to_vec())
        .ok()
        .unwrap();
    let intro = intro_address(&e, &a, "Naruto");
    let intro_data = padded(&plan.intro.data, 1000);
    let mut counter_data = plan.counter.data.clone();
    let mut addresses = Vec::new();
    for n in 0..4u64 {
        let accounts = reply_accounts(&e, &b, &a, "Naruto", intro_data.clone(), counter_data.clone(), n);
        let r = add_reply(&k(&e.program), &accounts, format!("reply {}", n).into_bytes()).ok().unwrap();
        let record = StudentIntroReply::decode(&r.reply.data).unwrap();
        assert_eq!(record.count, n);
        assert_eq!(r.reply.address.to_bytes(), reply_address(&e, &intro, n).to_bytes());
        addresses.push(r.reply.address.to_bytes());
        counter_data = r.counter.data.clone();
    }
    assert_eq!(StudentIntroReplyCounter::decode(&counter_data).unwrap().counter, 4);
    for i in 0..addresses.len() {
        for j in (i + 1)..addresses.len() {
            assert_ne!(addresses[i], addresses[j]);
        }
    }
    // A reply account named for a number other than the counter's is refused.
    let wrong = reply_accounts(&e, &b, &a, "Naruto", intro_data.clone(), counter_data.clone(), 3);
    assert_eq!(
        add_reply(&k(&e.program), &wrong, b"late".to_vec()).err(),
        Some(ProcessError::Custom(StudentIntroError::InvalidPda))
    );
}

#[test]
fn oversized_intro_is_invalid_data_length() {
    let e = env();
    let a = SolKey::new_unique();
    let accounts = intro_accounts(&e, &a, "Naruto");
    // 9 + 1 + 32 + (4 + 6) + (4 + 944) = 1000 fits; one byte more does not.
    let fits = vec![b'x'; 944];
    assert!(add_student_intro(&k(&e.program), &accounts, b"Naruto".to_vec(), fits).is_ok());
    let over = vec![b'x'; 945];
    assert_eq!(
        add_student_intro(&k(&e.program), &accounts, b"Naruto".to_vec(), over).err(),
        Some(ProcessError::Custom(StudentIntroError::InvalidDataLength))
    );
}

#[test]
fn add_intro_checks_accounts() {
    let e = env();
    let a = SolKey::new_unique();
    let p = k(&e.program);
    let good = intro_accounts(&e, &a, "Naruto");

    let mut unsigned = intro_accounts(&e, &a, "Naruto");
    unsigned[0].is_signer = false;
    assert_eq!(add_student_intro(&p, &unsigned, b"Naruto".to_vec(), b"m".to_vec()).err(), Some(ProcessError::MissingRequiredSignature));

    assert_eq!(
        add_student_intro(&p, &good, b"Sasuke".to_vec(), b"m".to_vec()).err(),
        Some(ProcessError::Custom(StudentIntroError::InvalidPda))
    );

    let other = SolKey::new_unique();
    for i in 3..8 {
        let mut bad = intro_accounts(&e, &a, "Naruto");
        bad[i].key = k(&other);
        assert_eq!(
            add_student_intro(&p, &bad, b"Naruto".to_vec(), b"m".to_vec()).err(),
            Some(ProcessError::Custom(StudentIntroError::IncorrectAccountPassed))
        );
    }

    let mut bad_counter = intro_accounts(&e, &a, "Naruto");
    bad_counter[2].key = k(&other);
    assert_eq!(
        add_student_intro(&p, &bad_counter, b"Naruto".to_vec(), b"m".to_vec()).err(),
        Some(ProcessError::Custom(StudentIntroError::InvalidPda))
    );

    assert_eq!(
        add_student_intro(&p, &good, b"Naruto".to_vec(), vec![0xff, 0xfe]).err(),
        Some(ProcessError::InvalidInstructionData)
    );

    let short: Vec<AccountView> = intro_accounts(&e, &a, "Naruto").into_iter().take(7).collect();
    assert_eq!(add_student_intro(&p, &short, b"Naruto".to_vec(), b"m".to_vec()).err(), Some(ProcessError::NotEnoughAccountKeys));
}

#[test]
fn initialize_mint_checks_accounts() {
    let e = env();
    let a = SolKey::new_unique();
    let p = k(&e.program);
    let other = SolKey::new_unique();
    for i in 1..6 {
        let mut bad = mint_accounts(&e, &a);
        bad[i].key = k(&other);
        assert_eq!(
            initialize_mint_account(&p, &bad).err(),
            Some(ProcessError::Custom(StudentIntroError::IncorrectAccountPassed))
        );
    }
    let mut unsigned = mint_accounts(&e, &a);
    unsigned[0].is_signer = false;
    assert_eq!(initialize_mint_account(&p, &unsigned).err(), Some(ProcessError::MissingRequiredSignature));
}

#[test]
fn add_reply_checks_accounts() {
    let e = env();
    let a = SolKey::new_unique();
    let b = SolKey::new_unique();
    let p = k(&e.program);
    let plan = add_student_intro(&p, &intro_accounts(&e, &a, "Naruto"), b"Naruto".to_vec(), b"hi".to_vec())
        .ok()
        .unwrap();
    let intro_data = padded(&plan.intro.data, 1000);
    let counter_data = plan.counter.data.clone();
    let base = || reply_accounts(&e, &b, &a, "Naruto", intro_data.clone(), counter_data.clone(), 0);

    let mut foreign = base();
    foreign[1].owner = k(&solana_program::system_program::id());
    assert_eq!(add_reply(&p, &foreign, b"r".to_vec()).err(), Some(ProcessError::IllegalOwner));

    let mut foreign_counter = base();
    foreign_counter[2].owner = k(&solana_program::system_program::id());
    assert_eq!(add_reply(&p, &foreign_counter, b"r".to_vec()).err(), Some(ProcessError::IllegalOwner));

    let mut uninit = base();
    uninit[1].data[9] = 0;
    assert_eq!(
        add_reply(&p, &uninit, b"r".to_vec()).err(),
        Some(ProcessError::Custom(StudentIntroError::UninitializedAccount))
    );

    let mut wrong_ata = base();
    wrong_ata[6].key = k(&spl_associated_token_account::get_associated_token_address(&a, &e.mint));
    assert_eq!(
        add_reply(&p, &wrong_ata, b"r".to_vec()).err(),
        Some(ProcessError::Custom(StudentIntroError::IncorrectAccountPassed))
    );

    let mut taken = base();
    let existing = StudentIntroReply::decode(
        &add_reply(&p, &base(), b"first".to_vec()).ok().unwrap().reply.data,
    )
    .unwrap();
    assert!(existing.is_initialized);
    taken[3].data = add_reply(&p, &base(), b"first".to_vec()).ok().unwrap().reply.data;
    assert_eq!(add_reply(&p, &taken, b"r".to_vec()).err(), Some(ProcessError::AccountAlreadyInitialized));

    let mut garbled = base();
    garbled[2].data = vec![1, 2, 3];
    assert_eq!(add_reply(&p, &garbled, b"r".to_vec()).err(), Some(ProcessError::DecodeError));
}

#[test]
fn dispatch_decodes_instruction_bytes() {
    let e = env();
    let a = SolKey::new_unique();
    let p = k(&e.program);
    let mut data = vec![0u8];
    data.extend_from_slice(&6u32.to_le_bytes());
    data.extend_from_slice(b"Naruto");
    data.extend_from_slice(&23u32.to_le_bytes());
    data.extend_from_slice(b"Developing solana jutsu");
    match process_instruction(&p, &intro_accounts(&e, &a, "Naruto"), &data) {
        Ok(Plan::Intro(plan)) => {
            let stored = StudentIntroAccountState::decode(&plan.intro.data).unwrap();
            assert_eq!(stored.msg, b"Developing solana jutsu".to_vec());
        }
        _ => panic!("expected an introduction plan"),
    }
    match process_instruction(&p, &mint_accounts(&e, &a), &vec![3u8]) {
        Ok(Plan::Mint(_)) => {}
        _ => panic!("expected a mint plan"),
    }
    assert_eq!(process_instruction(&p, &mint_accounts(&e, &a), &vec![9u8]).err(), Some(ProcessError::InvalidInstructionData));
    assert_eq!(process_instruction(&p, &mint_accounts(&e, &a), &vec![]).err(), Some(ProcessError::InvalidInstructionData));
}
