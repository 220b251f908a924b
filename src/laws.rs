use crate::address::{comment_seeds, counter_seeds, program_address, review_seeds};
use crate::error::MovieRevieError;
use crate::processor::{
    add_comment_outcome, add_review_outcome, allocated, failed, new_comment, new_review,
    update_review_outcome, updated_review, valid_rating, written, AllocationView,
    SlotView,
};
use crate::state::{
    counter_bytes, lemma_parse_comment, lemma_parse_counter, lemma_parse_review, parse_comment,
    parse_counter, parse_review, review_len, review_tag, CounterView, REVIEW_SLOT_LEN,
};
use vstd::prelude::*;
use vstd::utf8::decode_utf8_encode_utf8;

verus! {

broadcast use decode_utf8_encode_utf8;

/// Every address and owner of the slots is 32 bytes long, as an `Address` is.
pub open spec fn slots_wf(a: Seq<SlotView>) -> bool {
    forall|i: int| 0 <= i < a.len() ==> #[trigger] a[i].key.len() == 32 && a[i].owner.len() == 32
}

/// Deriving an address is repeatable: the same author, title and program always give
/// the same address and bump.
pub proof fn law_derive_deterministic(
    program: Seq<u8>,
    reviewer: Seq<u8>,
    title: Seq<char>,
    first: Option<(Seq<u8>, u8)>,
    second: Option<(Seq<u8>, u8)>,
)
    requires
        first == program_address(review_seeds(reviewer, title), program),
        second == program_address(review_seeds(reviewer, title), program),
    ensures
        first == second,
{
}

/// Adding a review with a rating outside 1 to 5 fails with `InvalidRating`, so no slot
/// is created and none is written.
pub proof fn law_bad_rating_rejected(
    program: Seq<u8>,
    accounts: Seq<SlotView>,
    title: Seq<char>,
    rating: u8,
    desc: Seq<char>,
)
    requires
        !valid_rating(rating),
    ensures
        add_review_outcome(program, accounts, title, rating, desc) == failed(
            MovieRevieError::InvalidRating,
        ),
{
}

/// A review is created once: adding it again with the same author and title, on the
/// slots that the first addition left, fails with `AlreadyInitialized`, and the slot
/// still holds the first rating and description.
pub proof fn law_review_created_once(
    program: Seq<u8>,
    accounts: Seq<SlotView>,
    title: Seq<char>,
    rating: u8,
    desc: Seq<char>,
    after: Seq<SlotView>,
    allocs: Seq<AllocationView>,
    rating2: u8,
    desc2: Seq<char>,
)
    requires
        slots_wf(accounts),
        add_review_outcome(program, accounts, title, rating, desc) == Ok::<
            (Seq<SlotView>, Seq<AllocationView>),
            MovieRevieError,
        >((after, allocs)),
        valid_rating(rating2),
        review_len(review_tag(), title, desc2) <= REVIEW_SLOT_LEN,
    ensures
        add_review_outcome(program, after, title, rating2, desc2) == failed(
            MovieRevieError::AlreadyInitialized,
        ),
        parse_review(after[1].data) == Some(new_review(accounts[0].key, title, rating, desc)),
{
    crate::state::lemma_tag_lens();
    let m = new_review(accounts[0].key, title, rating, desc);
    let r1 = allocated(accounts[1], REVIEW_SLOT_LEN as nat, program);
    let enc = crate::state::review_bytes(m);
    let rd = written(r1.data, enc)->Some_0;
    assert(rd =~= enc + r1.data.subrange(enc.len() as int, r1.data.len() as int));
    lemma_parse_review(m, r1.data.subrange(enc.len() as int, r1.data.len() as int));
    assert(after[1].data == rd);
    assert(after[0] == accounts[0]);
    assert(after[1].key == accounts[1].key);
    assert(after[1].data.len() > 0);
    assert(allocated(after[1], REVIEW_SLOT_LEN as nat, program) == after[1]);
}

/// Updating a review whose record is not initialized fails with `UninitializedAccount`,
/// once the signer, owner and address checks have passed.
pub proof fn law_update_needs_initialized(
    program: Seq<u8>,
    accounts: Seq<SlotView>,
    title: Seq<char>,
    rating: u8,
    desc: Seq<char>,
    bump: u8,
)
    requires
        valid_rating(rating),
        review_len(review_tag(), title, desc) <= REVIEW_SLOT_LEN,
        accounts.len() >= 3,
        accounts[0].is_signer,
        accounts[1].owner == program,
        program_address(review_seeds(accounts[0].key, title), program) == Some(
            (accounts[1].key, bump),
        ),
        parse_review(accounts[1].data) matches Some(m) && !m.is_initialized,
    ensures
        update_review_outcome(program, accounts, title, rating, desc) == failed(
            MovieRevieError::UninitializedAccount,
        ),
{
}

/// An update changes only the title, rating and description of the record: its author,
/// tag and flag stay, and no other slot changes.
pub proof fn law_update_keeps_reviewer(
    program: Seq<u8>,
    accounts: Seq<SlotView>,
    title: Seq<char>,
    rating: u8,
    desc: Seq<char>,
    after: Seq<SlotView>,
    allocs: Seq<AllocationView>,
)
    requires
        slots_wf(accounts),
        update_review_outcome(program, accounts, title, rating, desc) == Ok::<
            (Seq<SlotView>, Seq<AllocationView>),
            MovieRevieError,
        >((after, allocs)),
    ensures
        parse_review(accounts[1].data) matches Some(m) && parse_review(after[1].data) == Some(
            updated_review(m, title, rating, desc),
        ) && m.reviewer == updated_review(m, title, rating, desc).reviewer
            && m.discriminator == updated_review(m, title, rating, desc).discriminator,
        after.len() == accounts.len(),
        forall|i: int| 0 <= i < accounts.len() && i != 1 ==> after[i] == accounts[i],
        after[1].key == accounts[1].key,
{
    crate::state::lemma_tag_lens();
    let m = parse_review(accounts[1].data)->Some_0;
    let u = updated_review(m, title, rating, desc);
    let d = accounts[1].data;
    let enc = crate::state::review_bytes(u);
    assert(written(d, enc)->Some_0 =~= enc + d.subrange(enc.len() as int, d.len() as int));
    lemma_parse_review(u, d.subrange(enc.len() as int, d.len() as int));
}

/// A successful comment takes the address derived from the review and the counter's
/// value `k`, writes the comment there, and leaves the counter at `k + 1`.
pub proof fn law_comment_advances_counter(
    program: Seq<u8>,
    accounts: Seq<SlotView>,
    text: Seq<char>,
    after: Seq<SlotView>,
    allocs: Seq<AllocationView>,
)
    requires
        slots_wf(accounts),
        add_comment_outcome(program, accounts, text) == Ok::<
            (Seq<SlotView>, Seq<AllocationView>),
            MovieRevieError,
        >((after, allocs)),
    ensures
        parse_counter(accounts[2].data) is Some,
        ({
            let c = parse_counter(accounts[2].data)->Some_0;
            &&& c.counter < u64::MAX
            &&& parse_counter(after[2].data) == Some(CounterView { counter: (c.counter + 1) as u64, ..c })
            &&& program_address(comment_seeds(accounts[1].key, c.counter), program) is Some
            &&& program_address(comment_seeds(accounts[1].key, c.counter), program)->Some_0.0
                == after[3].key
        }),
        parse_comment(after[3].data) == Some(new_comment(accounts[0].key, accounts[1].key, text)),
        after.len() == accounts.len(),
        forall|i: int| 0 <= i < accounts.len() && i != 2 && i != 3 ==> after[i] == accounts[i],
{
    crate::state::lemma_tag_lens();
    let c = parse_counter(accounts[2].data)->Some_0;
    let nc = CounterView { counter: (c.counter + 1) as u64, ..c };
    let d2 = accounts[2].data;
    let enc2 = counter_bytes(nc);
    assert(written(d2, enc2)->Some_0 =~= enc2 + d2.subrange(enc2.len() as int, d2.len() as int));
    lemma_parse_counter(nc, d2.subrange(enc2.len() as int, d2.len() as int));
    let cm = new_comment(accounts[0].key, accounts[1].key, text);
    let s1 = allocated(accounts[3], crate::state::comment_len(text) as nat, program);
    let enc3 = crate::state::comment_bytes(cm);
    assert(written(s1.data, enc3)->Some_0 =~= enc3 + s1.data.subrange(
        enc3.len() as int,
        s1.data.len() as int,
    ));
    lemma_parse_comment(cm, s1.data.subrange(enc3.len() as int, s1.data.len() as int));
}

/// The conditions under which `before[i]` are the slots of the `i`-th of a run of
/// successful comments on one review, starting from a counter at zero: each invocation
/// gets the review of the first and the counter that the one before left.
pub open spec fn comment_run(
    program: Seq<u8>,
    before: Seq<Seq<SlotView>>,
    after: Seq<Seq<SlotView>>,
    allocs: Seq<Seq<AllocationView>>,
    texts: Seq<Seq<char>>,
) -> bool {
    &&& before.len() == texts.len() && after.len() == texts.len() && allocs.len() == texts.len()
    &&& forall|i: int| 0 <= i < texts.len() ==> slots_wf(#[trigger] before[i])
    &&& forall|i: int|
        0 <= i < texts.len() ==> add_comment_outcome(program, #[trigger] before[i], texts[i]) == Ok::<
            (Seq<SlotView>, Seq<AllocationView>),
            MovieRevieError,
        >((after[i], allocs[i]))
    &&& forall|i: int| 0 <= i < texts.len() ==> (#[trigger] before[i])[1].key == before[0][1].key
    &&& forall|i: int| 0 < i < texts.len() ==> (#[trigger] before[i])[2] == after[i - 1][2]
    &&& texts.len() > 0 ==> (parse_counter(before[0][2].data) matches Some(c) && c.counter == 0)
}

proof fn lemma_run_counter(
    program: Seq<u8>,
    before: Seq<Seq<SlotView>>,
    after: Seq<Seq<SlotView>>,
    allocs: Seq<Seq<AllocationView>>,
    texts: Seq<Seq<char>>,
    k: int,
)
    requires
        comment_run(program, before, after, allocs, texts),
        0 <= k < texts.len(),
    ensures
        parse_counter(before[k][2].data) is Some,
        parse_counter(before[k][2].data)->Some_0.counter == k,
        parse_counter(after[k][2].data) is Some,
        parse_counter(after[k][2].data)->Some_0.counter == k + 1,
        after[k][3].key == program_address(comment_seeds(before[0][1].key, k as u64), program)->Some_0.0,
    decreases k,
{
    if k > 0 {
        lemma_run_counter(program, before, after, allocs, texts, k - 1);
        assert(before[k][2] == after[k - 1][2]);
    }
    assert(slots_wf(before[k]));
    law_comment_advances_counter(program, before[k], texts[k], after[k], allocs[k]);
}

/// `n` comments in a row on one review, from a counter at zero, take the addresses
/// derived from the review and 0, 1, .., n - 1 in turn, and leave the counter at `n`.
pub proof fn law_comments_in_sequence(
    program: Seq<u8>,
    before: Seq<Seq<SlotView>>,
    after: Seq<Seq<SlotView>>,
    allocs: Seq<Seq<AllocationView>>,
    texts: Seq<Seq<char>>,
)
    requires
        comment_run(program, before, after, allocs, texts),
        texts.len() > 0,
    ensures
        forall|i: int|
            0 <= i < texts.len() ==> (#[trigger] after[i])[3].key == program_address(
                comment_seeds(before[0][1].key, i as u64),
                program,
            )->Some_0.0,
        parse_counter(after[texts.len() - 1][2].data) is Some,
        parse_counter(after[texts.len() - 1][2].data)->Some_0.counter == texts.len(),
{
    assert forall|i: int| 0 <= i < texts.len() implies (#[trigger] after[i])[3].key
        == program_address(comment_seeds(before[0][1].key, i as u64), program)->Some_0.0 by {
        lemma_run_counter(program, before, after, allocs, texts, i);
    }
    lemma_run_counter(program, before, after, allocs, texts, texts.len() - 1);
}

/// A comment whose slot is not at the address derived from the review and the counter's
/// value fails with `InvalidPDA`; a failed invocation changes no slot, so the counter
/// keeps its value and nothing is written at the derived address.
pub proof fn law_comment_bad_address_rejected(
    program: Seq<u8>,
    accounts: Seq<SlotView>,
    text: Seq<char>,
    bump: u8,
    pda: Seq<u8>,
)
    requires
        accounts.len() >= 5,
        accounts[0].is_signer,
        program_address(counter_seeds(accounts[1].key), program) == Some(
            (accounts[2].key, bump),
        ),
        parse_counter(accounts[2].data) matches Some(c) && program_address(
            comment_seeds(accounts[1].key, c.counter),
            program,
        ) matches Some((p, _b)) && p == pda,
        pda != accounts[3].key,
    ensures
        add_comment_outcome(program, accounts, text) == failed(MovieRevieError::InvalidPDA),
{
}

} // verus!
