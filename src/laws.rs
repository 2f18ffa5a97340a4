use vstd::prelude::*;
use crate::bytes::{be64, lemma_be64_injective};
use crate::error::{ProcessError, StudentIntroError};
use crate::key::{found_view, pda_of, Pubkey};
use crate::plan::{authority_seed, mint_seed, AccountView};
use crate::processor::{
    add_intro_outcome, add_reply_outcome, add_reply_tail, reward_accounts_ok, update_intro_outcome,
};
use crate::state::{
    counter_decoded, intro_size, lemma_counter_round_trip, lemma_intro_round_trip, lemma_reply_round_trip,
    reply_decoded, text_ok, IntroSpec, ReplySpec, StudentIntroReplyCounter, MAX_INTRO_SIZE,
};

verus! {

/// `s` begins with the bytes `p`.
pub open spec fn starts_with(s: Seq<u8>, p: Seq<u8>) -> bool {
    p.len() <= s.len() && s.subrange(0, p.len() as int) == p
}

/// Deriving an address is deterministic: two derivations from the same seeds
/// under the same program give the same address and the same bump.
pub proof fn derivation_is_deterministic(
    seeds: Seq<Seq<u8>>,
    program: Seq<u8>,
    first: Option<(Pubkey, u8)>,
    second: Option<(Pubkey, u8)>,
)
    requires
        found_view(first) == pda_of(seeds, program),
        found_view(second) == pda_of(seeds, program),
    ensures
        found_view(first) == found_view(second),
{
}

/// Once an introduction's planned record is written, adding the same
/// introduction again is refused as already initialised, and plans nothing.
pub proof fn add_intro_twice_is_refused(
    program: Seq<u8>,
    a: Seq<AccountView>,
    b: Seq<AccountView>,
    name: Seq<u8>,
    msg: Seq<u8>,
)
    requires
        add_intro_outcome(program, a, name, msg) is Ok,
        b.len() == a.len(),
        forall|i: int| 0 <= i < a.len() ==> #[trigger] b[i].key@ == a[i].key@ && b[i].is_signer == a[i].is_signer,
        starts_with(b[1].data@, add_intro_outcome(program, a, name, msg)->Ok_0.intro.data),
    ensures
        add_intro_outcome(program, b, name, msg) == Err::<crate::plan::IntroPlanSpec, ProcessError>(
            ProcessError::AccountAlreadyInitialized,
        ),
{
    let plan = add_intro_outcome(program, a, name, msg)->Ok_0;
    let r = IntroSpec { is_initialized: true, identity: a[0].key@, name, msg };
    let d = b[1].data@;
    let t = d.subrange(plan.intro.data.len() as int, d.len() as int);
    assert(d =~= plan.intro.data + t);
    lemma_intro_round_trip(r, t);
    assert(b[0].key@ == a[0].key@ && b[1].key@ == a[1].key@ && b[3].key@ == a[3].key@);
    assert(b[4].key@ == a[4].key@ && b[5].key@ == a[5].key@ && b[6].key@ == a[6].key@ && b[7].key@ == a[7].key@);
    assert(b[0].is_signer == a[0].is_signer);
}

/// Updating an introduction with a name other than the stored one is
/// refused with `InvalidStudentName`, and plans no write, so the stored
/// message stays.
pub proof fn update_with_other_name_is_refused(program: Seq<u8>, a: Seq<AccountView>, name: Seq<u8>, msg: Seq<u8>)
    requires
        a.len() >= 2,
        a[0].is_signer,
        a[1].owner@ == program,
        text_ok(name),
        text_ok(msg),
        intro_decoded_ok(program, a),
        intro_decoded_name(a) != name,
    ensures
        update_intro_outcome(program, a, name, msg) == Err::<crate::plan::OverwriteSpec, ProcessError>(
            ProcessError::Custom(StudentIntroError::InvalidStudentName),
        ),
{
}

/// The introduction account holds an initialised record at the address
/// derived from the signer and its stored name.
pub open spec fn intro_decoded_ok(program: Seq<u8>, a: Seq<AccountView>) -> bool {
    match crate::state::intro_decoded(a[1].data@) {
        Some(st) => st.is_initialized && match pda_of(seq![a[0].key@, st.name], program) {
            Some((p, _)) => p == a[1].key@,
            None => false,
        },
        None => false,
    }
}

pub open spec fn intro_decoded_name(a: Seq<AccountView>) -> Seq<u8> {
    crate::state::intro_decoded(a[1].data@)->Some_0.name
}

/// An introduction whose record would exceed the size cap is refused with
/// `InvalidDataLength`, and plans no account, when its accounts are right.
pub proof fn oversized_intro_is_refused(program: Seq<u8>, a: Seq<AccountView>, name: Seq<u8>, msg: Seq<u8>)
    requires
        a.len() >= 8,
        a[0].is_signer,
        text_ok(name),
        text_ok(msg),
        intro_size(name.len() as int, msg.len() as int) > MAX_INTRO_SIZE,
        pda_of(seq![a[0].key@, name], program) is Some,
        pda_of(seq![a[0].key@, name], program)->Some_0.0 == a[1].key@,
        pda_of(seq![mint_seed()], program) is Some,
        pda_of(seq![authority_seed()], program) is Some,
        reward_accounts_ok(
            a,
            0,
            3,
            4,
            5,
            6,
            7,
            pda_of(seq![mint_seed()], program)->Some_0.0,
            pda_of(seq![authority_seed()], program)->Some_0.0,
        ),
    ensures
        add_intro_outcome(program, a, name, msg) == Err::<crate::plan::IntroPlanSpec, ProcessError>(
            ProcessError::Custom(StudentIntroError::InvalidDataLength),
        ),
{
}

/// What a planned reply holds, given the introduction `pda` and the counter
/// `c` that it was checked against.
proof fn lemma_reply_tail(
    program: Seq<u8>,
    a: Seq<AccountView>,
    reply: Seq<u8>,
    pda: Seq<u8>,
    c: StudentIntroReplyCounter,
    next: Seq<u8>,
)
    requires
        add_reply_tail(program, a, reply, pda, c) is Ok,
        text_ok(reply),
        a.len() >= 9,
        pda == a[1].key@,
        starts_with(next, add_reply_tail(program, a, reply, pda, c)->Ok_0.counter.data),
    ensures
        ({
            let plan = add_reply_tail(program, a, reply, pda, c)->Ok_0;
            &&& plan.reply.seeds == seq![a[1].key@, be64(c.counter)]
            &&& pda_of(plan.reply.seeds, program) == Some((plan.reply.address, plan.reply.bump))
            &&& reply_decoded(plan.reply.data) is Some
            &&& reply_decoded(plan.reply.data)->Some_0.count == c.counter
            &&& plan.counter.address == a[2].key@
            &&& counter_decoded(next) is Some
            &&& counter_decoded(next)->Some_0.counter == c.counter + 1
        }),
{
    reveal(add_reply_tail);
    let plan = add_reply_tail(program, a, reply, pda, c)->Ok_0;
    let r = ReplySpec { is_initialized: true, intro: a[1].key@, replier: a[0].key@, reply, count: c.counter };
    lemma_reply_round_trip(r, Seq::empty());
    assert(plan.reply.data + Seq::<u8>::empty() =~= plan.reply.data);
    let t = next.subrange(plan.counter.data.len() as int, next.len() as int);
    assert(next =~= plan.counter.data + t);
    lemma_counter_round_trip(StudentIntroReplyCounter { counter: (c.counter + 1) as u64, ..c }, t);
}

/// One reply: it takes the counter's current value as its sequence number,
/// is created at the address derived from the introduction and that number,
/// and once the planned counter is written the counter reads one higher.
pub proof fn reply_takes_counter_and_advances_it(program: Seq<u8>, a: Seq<AccountView>, reply: Seq<u8>, next: Seq<u8>)
    requires
        add_reply_outcome(program, a, reply) is Ok,
        starts_with(next, add_reply_outcome(program, a, reply)->Ok_0.counter.data),
    ensures
        ({
            let plan = add_reply_outcome(program, a, reply)->Ok_0;
            let count = counter_decoded(a[2].data@)->Some_0.counter;
            &&& counter_decoded(a[2].data@) is Some
            &&& plan.reply.seeds == seq![a[1].key@, be64(count)]
            &&& pda_of(plan.reply.seeds, program) == Some((plan.reply.address, plan.reply.bump))
            &&& reply_decoded(plan.reply.data) is Some
            &&& reply_decoded(plan.reply.data)->Some_0.count == count
            &&& plan.counter.address == a[2].key@
            &&& counter_decoded(next) is Some
            &&& counter_decoded(next)->Some_0.counter == count + 1
        }),
{
    reveal(add_reply_outcome);
    let st = crate::state::intro_decoded(a[1].data@)->Some_0;
    let pda = pda_of(seq![st.identity, st.name], program)->Some_0.0;
    let c = counter_decoded(a[2].data@)->Some_0;
    lemma_reply_tail(program, a, reply, pda, c, next);
}

/// Replies made one after another, each seeing the counter that the one
/// before wrote, from a counter at zero: the k-th reply gets sequence number
/// k, and after n replies the counter reads n.
pub proof fn replies_are_numbered_in_order(
    program: Seq<u8>,
    states: Seq<Seq<AccountView>>,
    replies: Seq<Seq<u8>>,
    n: nat,
)
    requires
        states.len() == n + 1,
        replies.len() == n,
        counter_decoded(states[0][2].data@) is Some,
        counter_decoded(states[0][2].data@)->Some_0.counter == 0,
        forall|k: int| 0 <= k < n ==> #[trigger] add_reply_outcome(program, states[k], replies[k]) is Ok,
        forall|k: int|
            0 <= k < n ==> starts_with(
                states[k + 1][2].data@,
                #[trigger] add_reply_outcome(program, states[k], replies[k])->Ok_0.counter.data,
            ),
        forall|k: int| 0 <= k < n ==> (#[trigger] states[k + 1])[1].key@ == states[k][1].key@,
    ensures
        counter_decoded(states[n as int][2].data@) is Some,
        counter_decoded(states[n as int][2].data@)->Some_0.counter == n,
        forall|k: int|
            0 <= k < n ==> (#[trigger] add_reply_outcome(program, states[k], replies[k]))->Ok_0.reply.seeds == seq![
                states[0][1].key@,
                be64(k as u64),
            ],
    decreases n,
{
    if n > 0 {
        let m = (n - 1) as nat;
        let prev_states = states.subrange(0, n as int);
        let prev_replies = replies.subrange(0, m as int);
        assert forall|k: int| 0 <= k < m implies #[trigger] add_reply_outcome(
            program,
            prev_states[k],
            prev_replies[k],
        ) is Ok by {
            assert(prev_states[k] == states[k]);
            assert(add_reply_outcome(program, states[k], replies[k]) is Ok);
        }
        assert forall|k: int| 0 <= k < m implies starts_with(
            prev_states[k + 1][2].data@,
            #[trigger] add_reply_outcome(program, prev_states[k], prev_replies[k])->Ok_0.counter.data,
        ) by {
            assert(prev_states[k + 1] == states[k + 1]);
            assert(add_reply_outcome(program, states[k], replies[k]) is Ok);
        }
        assert forall|k: int| 0 <= k < m implies (#[trigger] prev_states[k + 1])[1].key@ == prev_states[k][1].key@ by {
            assert(states[k + 1][1].key@ == states[k][1].key@);
        }
        replies_are_numbered_in_order(program, prev_states, prev_replies, m);
        assert(add_reply_outcome(program, states[m as int], replies[m as int]) is Ok);
        assert(prev_states[m as int] == states[m as int]);
        reply_takes_counter_and_advances_it(program, states[m as int], replies[m as int], states[n as int][2].data@);
        assert forall|k: int| 0 <= k < m implies (#[trigger] states[k])[1].key@ == states[0][1].key@ by {
            lemma_same_intro(states, k, m);
        }
        lemma_same_intro(states, m as int, m);
        assert forall|k: int|
            0 <= k < n implies (#[trigger] add_reply_outcome(program, states[k], replies[k]))->Ok_0.reply.seeds
            == seq![states[0][1].key@, be64(k as u64)] by {
            if k < m {
                assert(prev_states[k] == states[k]);
                assert(prev_replies[k] == replies[k]);
                assert(add_reply_outcome(program, prev_states[k], prev_replies[k])->Ok_0.reply.seeds == seq![
                    prev_states[0][1].key@,
                    be64(k as u64),
                ]);
            }
        }
    }
}

proof fn lemma_same_intro(states: Seq<Seq<AccountView>>, k: int, m: nat)
    requires
        0 <= k <= m,
        m < states.len(),
        forall|j: int| 0 <= j < m ==> (#[trigger] states[j + 1])[1].key@ == states[j][1].key@,
    ensures
        states[k][1].key@ == states[0][1].key@,
    decreases k,
{
    if k > 0 {
        lemma_same_intro(states, k - 1, m);
        assert(states[(k - 1) + 1][1].key@ == states[k - 1][1].key@);
    }
}

/// Replies with different sequence numbers are derived from different seeds.
pub proof fn distinct_numbers_give_distinct_seeds(intro: Seq<u8>, i: u64, j: u64)
    requires
        i != j,
    ensures
        seq![intro, be64(i)] != seq![intro, be64(j)],
{
    lemma_be64_injective(i, j);
    if seq![intro, be64(i)] == seq![intro, be64(j)] {
        assert(seq![intro, be64(i)][1] == seq![intro, be64(j)][1]);
    }
}

} // verus!
