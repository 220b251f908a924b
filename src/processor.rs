use crate::address::{
    derive_comment_address, derive_counter_address, derive_review_address, comment_seed_bytes,
    comment_seeds, counter_seed_bytes, counter_seeds, program_address, review_seed_bytes,
    review_seeds, seeds_view, signer_seeds, with_bump, Address,
};
use crate::codec::str_fits;
use crate::error::MovieRevieError;
use crate::instruction::{parse_instruction, InstructionView, MovieReviewInstruction};
use crate::state::{
    comment_bytes, comment_discriminator, comment_kind_tag, comment_len, counter_bytes,
    counter_discriminator, counter_tag, parse_comment, parse_counter, parse_review,
    review_bytes, review_discriminator, review_len, review_tag, CommentView, CounterView,
    MovieAccountState, MovieComment, MovieCommentCounter, ReviewView, REVIEW_SLOT_LEN,
};
use vstd::prelude::*;
use vstd::utf8::decode_utf8_encode_utf8;

verus! {

broadcast use decode_utf8_encode_utf8;

/// A storage slot handed to an invocation: its address, the program that owns it,
/// whether its identity signed, and its bytes.
#[derive(Debug)]
pub struct Slot {
    pub key: Address,
    pub owner: Address,
    pub is_signer: bool,
    pub data: Vec<u8>,
}

pub struct SlotView {
    pub key: Seq<u8>,
    pub owner: Seq<u8>,
    pub is_signer: bool,
    pub data: Seq<u8>,
}

impl View for Slot {
    type V = SlotView;

    open spec fn view(&self) -> SlotView {
        SlotView { key: self.key@, owner: self.owner@, is_signer: self.is_signer, data: self.data@ }
    }
}

/// A slot that the host must create before the invocation's writes land: which of the
/// supplied slots, how many bytes, and the seeds (bump last) that authorise it.
#[derive(Debug)]
pub struct Allocation {
    pub slot: usize,
    pub space: usize,
    pub seeds: Vec<Vec<u8>>,
}

pub struct AllocationView {
    pub slot: usize,
    pub space: usize,
    pub seeds: Seq<Seq<u8>>,
}

impl View for Allocation {
    type V = AllocationView;

    open spec fn view(&self) -> AllocationView {
        AllocationView { slot: self.slot, space: self.space, seeds: seeds_view(self.seeds@) }
    }
}

pub open spec fn slots_view(s: Seq<Slot>) -> Seq<SlotView> {
    s.map_values(|x: Slot| x@)
}

pub open spec fn allocations_view(s: Seq<Allocation>) -> Seq<AllocationView> {
    s.map_values(|x: Allocation| x@)
}

/// A slot after the host has been asked to create it with `space` bytes for `program`:
/// a slot without bytes gets `space` zero bytes and the program as owner; a slot that
/// already holds bytes keeps them, and its initialization flag decides what follows.
pub open spec fn allocated(s: SlotView, space: nat, program: Seq<u8>) -> SlotView {
    if s.data.len() == 0 {
        SlotView { owner: program, data: Seq::new(space, |i: int| 0u8), ..s }
    } else {
        s
    }
}

/// `d` with its first bytes replaced by `enc`, if `enc` fits.
pub open spec fn written(d: Seq<u8>, enc: Seq<u8>) -> Option<Seq<u8>> {
    if enc.len() <= d.len() {
        Some(enc + d.subrange(enc.len() as int, d.len() as int))
    } else {
        None
    }
}

pub open spec fn with_data(s: SlotView, d: Seq<u8>) -> SlotView {
    SlotView { data: d, ..s }
}

/// The slots after an invocation and the slots that the host must create, or the error.
pub type Outcome = Result<(Seq<SlotView>, Seq<AllocationView>), MovieRevieError>;

pub open spec fn succeeded(slots: Seq<SlotView>, allocs: Seq<AllocationView>) -> Outcome {
    Ok((slots, allocs))
}

pub open spec fn failed(e: MovieRevieError) -> Outcome {
    Err(e)
}

pub open spec fn valid_rating(rating: u8) -> bool {
    1 <= rating <= 5
}

/// The review that an author creates.
pub open spec fn new_review(reviewer: Seq<u8>, title: Seq<char>, rating: u8, desc: Seq<char>) -> ReviewView {
    ReviewView {
        is_initialized: true,
        discriminator: review_tag(),
        reviewer,
        title,
        rating,
        description: desc,
    }
}

/// What adding a review does: the slots afterwards and the slots to create, or the error.
pub open spec fn add_review_outcome(
    program: Seq<u8>,
    accounts: Seq<SlotView>,
    title: Seq<char>,
    rating: u8,
    desc: Seq<char>,
) -> Outcome {
    if !valid_rating(rating) {
        Err(MovieRevieError::InvalidRating)
    } else if review_len(review_tag(), title, desc) > REVIEW_SLOT_LEN {
        Err(MovieRevieError::InvalidDataLength)
    } else if accounts.len() < 4 {
        Err(MovieRevieError::NotEnoughAccountKeys)
    } else if !accounts[0].is_signer {
        Err(MovieRevieError::MissingSignature)
    } else {
        let seeds = review_seeds(accounts[0].key, title);
        match program_address(seeds, program) {
            None => Err(MovieRevieError::InvalidPDA),
            Some((pda, bump)) => if pda != accounts[1].key {
                Err(MovieRevieError::InvalidPDA)
            } else {
                let r1 = allocated(accounts[1], REVIEW_SLOT_LEN as nat, program);
                match parse_review(r1.data) {
                    None => Err(MovieRevieError::DecodeError),
                    Some(old_rec) => if old_rec.is_initialized {
                        Err(MovieRevieError::AlreadyInitialized)
                    } else {
                        match written(
                            r1.data,
                            review_bytes(new_review(accounts[0].key, title, rating, desc)),
                        ) {
                            None => Err(MovieRevieError::InvalidDataLength),
                            Some(rd) => {
                                let cseeds = counter_seeds(pda);
                                match program_address(cseeds, program) {
                                    None => Err(MovieRevieError::InvalidPDA),
                                    Some((cpda, cbump)) => if cpda != accounts[2].key {
                                        Err(MovieRevieError::InvalidPDA)
                                    } else {
                                        let c1 = allocated(accounts[2], 20, program);
                                        match parse_counter(c1.data) {
                                            None => Err(MovieRevieError::DecodeError),
                                            Some(old_c) => if old_c.is_initialized {
                                                Err(MovieRevieError::AlreadyInitialized)
                                            } else {
                                                let cnt = CounterView {
                                                    is_initialized: true,
                                                    discriminator: counter_tag(),
                                                    counter: 0,
                                                };
                                                match written(c1.data, counter_bytes(cnt)) {
                                                    None => Err(MovieRevieError::InvalidDataLength),
                                                    Some(cd) => Ok(
                                                        (
                                                            accounts.update(1, with_data(r1, rd)).update(
                                                                2,
                                                                with_data(c1, cd),
                                                            ),
                                                            seq![
                                                                AllocationView {
                                                                    slot: 1,
                                                                    space: REVIEW_SLOT_LEN,
                                                                    seeds: signer_seeds(seeds, bump),
                                                                },
                                                                AllocationView {
                                                                    slot: 2,
                                                                    space: 20,
                                                                    seeds: signer_seeds(cseeds, cbump),
                                                                },
                                                            ],
                                                        ),
                                                    ),
                                                }
                                            },
                                        }
                                    },
                                }
                            },
                        }
                    },
                }
            },
        }
    }
}

/// The review after an update: new title, rating and description; all else kept.
pub open spec fn updated_review(m: ReviewView, title: Seq<char>, rating: u8, desc: Seq<char>) -> ReviewView {
    ReviewView { title, rating, description: desc, ..m }
}

/// What updating a review does.
pub open spec fn update_review_outcome(
    program: Seq<u8>,
    accounts: Seq<SlotView>,
    title: Seq<char>,
    rating: u8,
    desc: Seq<char>,
) -> Outcome {
    if !valid_rating(rating) {
        Err(MovieRevieError::InvalidRating)
    } else if review_len(review_tag(), title, desc) > REVIEW_SLOT_LEN {
        Err(MovieRevieError::InvalidDataLength)
    } else if accounts.len() < 3 {
        Err(MovieRevieError::NotEnoughAccountKeys)
    } else if !accounts[0].is_signer {
        Err(MovieRevieError::MissingSignature)
    } else if accounts[1].owner != program {
        Err(MovieRevieError::IllegalOwner)
    } else {
        match program_address(review_seeds(accounts[0].key, title), program) {
            None => Err(MovieRevieError::InvalidPDA),
            Some((pda, _bump)) => if pda != accounts[1].key {
                Err(MovieRevieError::InvalidPDA)
            } else {
                match parse_review(accounts[1].data) {
                    None => Err(MovieRevieError::DecodeError),
                    Some(m) => if !m.is_initialized {
                        Err(MovieRevieError::UninitializedAccount)
                    } else {
                        match written(
                            accounts[1].data,
                            review_bytes(updated_review(m, title, rating, desc)),
                        ) {
                            None => Err(MovieRevieError::InvalidDataLength),
                            Some(d) => Ok(
                                (accounts.update(1, with_data(accounts[1], d)), Seq::empty()),
                            ),
                        }
                    },
                }
            },
        }
    }
}

/// The comment that `commenter` writes on the review at `review`.
pub open spec fn new_comment(commenter: Seq<u8>, review: Seq<u8>, text: Seq<char>) -> CommentView {
    CommentView {
        is_initialized: true,
        discriminator: comment_kind_tag(),
        commenter,
        review,
        comment: text,
    }
}

/// What adding a comment does.
pub open spec fn add_comment_outcome(
    program: Seq<u8>,
    accounts: Seq<SlotView>,
    text: Seq<char>,
) -> Outcome {
    if accounts.len() < 5 {
        Err(MovieRevieError::NotEnoughAccountKeys)
    } else if !accounts[0].is_signer {
        Err(MovieRevieError::MissingSignature)
    } else {
        match program_address(counter_seeds(accounts[1].key), program) {
            None => Err(MovieRevieError::InvalidPDA),
            Some((cpda, _cbump)) => if cpda != accounts[2].key {
                Err(MovieRevieError::InvalidPDA)
            } else {
                match parse_counter(accounts[2].data) {
                    None => Err(MovieRevieError::DecodeError),
                    Some(c) => {
                        let seeds = comment_seeds(accounts[1].key, c.counter);
                        match program_address(seeds, program) {
                            None => Err(MovieRevieError::InvalidPDA),
                            Some((pda, bump)) => if pda != accounts[3].key {
                                Err(MovieRevieError::InvalidPDA)
                            } else if comment_len(text) > usize::MAX || !str_fits(text) {
                                Err(MovieRevieError::InvalidDataLength)
                            } else {
                                let s1 = allocated(accounts[3], comment_len(text) as nat, program);
                                match parse_comment(s1.data) {
                                    None => Err(MovieRevieError::DecodeError),
                                    Some(old_c) => if old_c.is_initialized {
                                        Err(MovieRevieError::AlreadyInitialized)
                                    } else {
                                        match written(
                                            s1.data,
                                            comment_bytes(
                                                new_comment(accounts[0].key, accounts[1].key, text),
                                            ),
                                        ) {
                                            None => Err(MovieRevieError::InvalidDataLength),
                                            Some(d3) => if c.counter == u64::MAX {
                                                Err(MovieRevieError::CounterOverflow)
                                            } else {
                                                match written(
                                                    accounts[2].data,
                                                    counter_bytes(
                                                        CounterView {
                                                            counter: (c.counter + 1) as u64,
                                                            ..c
                                                        },
                                                    ),
                                                ) {
                                                    None => Err(MovieRevieError::InvalidDataLength),
                                                    Some(d2) => Ok(
                                                        (
                                                            accounts.update(3, with_data(s1, d3)).update(
                                                                2,
                                                                with_data(accounts[2], d2),
                                                            ),
                                                            seq![
                                                                AllocationView {
                                                                    slot: 3,
                                                                    space: comment_len(text) as usize,
                                                                    seeds: signer_seeds(seeds, bump),
                                                                },
                                                            ],
                                                        ),
                                                    ),
                                                }
                                            },
                                        }
                                    },
                                }
                            },
                        }
                    },
                }
            },
        }
    }
}

/// What an invocation with payload `data` does.
pub open spec fn process_outcome(program: Seq<u8>, accounts: Seq<SlotView>, data: Seq<u8>) -> Outcome {
    match parse_instruction(data) {
        None => Err(MovieRevieError::DecodeError),
        Some(InstructionView::AddReview { title, rating, description }) => add_review_outcome(
            program,
            accounts,
            title,
            rating,
            description,
        ),
        Some(InstructionView::UpdateReview { title, rating, description }) => update_review_outcome(
            program,
            accounts,
            title,
            rating,
            description,
        ),
        Some(InstructionView::AddComment { comment }) => add_comment_outcome(
            program,
            accounts,
            comment,
        ),
    }
}

pub open spec fn opt_bytes(r: Option<Vec<u8>>) -> Option<Seq<u8>> {
    match r {
        Some(v) => Some(v@),
        None => None,
    }
}

/// A copy of the bytes `d`.
fn copy_bytes(d: &Vec<u8>) -> (r: Vec<u8>)
    ensures
        r@ == d@,
{
    let mut r: Vec<u8> = Vec::new();
    let mut i: usize = 0;
    while i < d.len()
        invariant
            i <= d@.len(),
            r@ =~= d@.subrange(0, i as int),
        decreases d@.len() - i,
    {
        r.push(d[i]);
        i = i + 1;
    }
    assert(r@ =~= d@);
    r
}

/// The slot as it stands once the host has been asked to create it.
fn allocate(s: &Slot, space: usize, program: &Address) -> (r: Slot)
    ensures
        r@ == allocated(s@, space as nat, program@),
{
    if s.data.len() == 0 {
        let mut d: Vec<u8> = Vec::new();
        let mut i: usize = 0;
        while i < space
            invariant
                i <= space,
                d@ =~= Seq::new(i as nat, |j: int| 0u8),
            decreases space - i,
        {
            d.push(0u8);
            i = i + 1;
        }
        Slot { key: s.key, owner: *program, is_signer: s.is_signer, data: d }
    } else {
        Slot { key: s.key, owner: s.owner, is_signer: s.is_signer, data: copy_bytes(&s.data) }
    }
}

/// `d` with its first bytes replaced by `enc`, if `enc` fits.
fn write_prefix(d: &Vec<u8>, enc: Vec<u8>) -> (r: Option<Vec<u8>>)
    ensures
        opt_bytes(r) == written(d@, enc@),
{
    if enc.len() > d.len() {
        return None;
    }
    let mut r = enc;
    let mut i: usize = r.len();
    let ghost start = r@;
    while i < d.len()
        invariant
            start.len() <= i <= d@.len(),
            r@ =~= start + d@.subrange(start.len() as int, i as int),
        decreases d@.len() - i,
    {
        r.push(d[i]);
        i = i + 1;
    }
    Some(r)
}

/// Creates a review and its comment counter.
///
/// The slots are: the author, who signs; the review; its counter; the allocator.
/// On success the review and counter slots hold their records and the result lists
/// the two slots that the host must create; on failure nothing changes.
pub fn add_movie_review(
    program_id: &Address,
    accounts: &mut Vec<Slot>,
    title: String,
    rating: u8,
    description: String,
) -> (r: Result<Vec<Allocation>, MovieRevieError>)
    ensures
        match r {
            Ok(allocs) => add_review_outcome(
                program_id@,
                slots_view(old(accounts)@),
                title@,
                rating,
                description@,
            ) == succeeded(slots_view(final(accounts)@), allocations_view(allocs@)),
            Err(e) => add_review_outcome(
                program_id@,
                slots_view(old(accounts)@),
                title@,
                rating,
                description@,
            ) == failed(e) && final(accounts)@
                == old(accounts)@,
        },
{
    let ghost accs = slots_view(accounts@);
    if rating < 1 || rating > 5 {
        return Err(MovieRevieError::InvalidRating);
    }
    if MovieAccountState::get_account_size(&title, &description).is_none() {
        return Err(MovieRevieError::InvalidDataLength);
    }
    if accounts.len() < 4 {
        return Err(MovieRevieError::NotEnoughAccountKeys);
    }
    if !accounts[0].is_signer {
        return Err(MovieRevieError::MissingSignature);
    }
    let initializer = accounts[0].key;
    let (pda, bump) = match derive_review_address(program_id, &initializer, &title) {
        Some(x) => x,
        None => return Err(MovieRevieError::InvalidPDA),
    };
    if !pda.same(&accounts[1].key) {
        return Err(MovieRevieError::InvalidPDA);
    }
    let r1 = allocate(&accounts[1], REVIEW_SLOT_LEN, program_id);
    let old_rec = match MovieAccountState::decode(r1.data.as_slice()) {
        Some(x) => x,
        None => return Err(MovieRevieError::DecodeError),
    };
    if old_rec.is_initialized {
        return Err(MovieRevieError::AlreadyInitialized);
    }
    let review = MovieAccountState {
        is_initialized: true,
        discriminator: review_discriminator(),
        reviewer: initializer,
        title,
        rating,
        description,
    };
    proof {
        crate::state::lemma_tag_lens();
    }
    assert(review@ == new_review(accs[0].key, title@, rating, description@));
    let rd = match write_prefix(&r1.data, review.encode()) {
        Some(x) => x,
        None => return Err(MovieRevieError::InvalidDataLength),
    };
    let (cpda, cbump) = match derive_counter_address(program_id, &pda) {
        Some(x) => x,
        None => return Err(MovieRevieError::InvalidPDA),
    };
    if !cpda.same(&accounts[2].key) {
        return Err(MovieRevieError::InvalidPDA);
    }
    let c1 = allocate(&accounts[2], MovieCommentCounter::size(), program_id);
    let old_c = match MovieCommentCounter::decode(c1.data.as_slice()) {
        Some(x) => x,
        None => return Err(MovieRevieError::DecodeError),
    };
    if old_c.is_initialized {
        return Err(MovieRevieError::AlreadyInitialized);
    }
    let cnt = MovieCommentCounter {
        is_initialized: true,
        discriminator: counter_discriminator(),
        counter: 0,
    };
    let cd = match write_prefix(&c1.data, cnt.encode()) {
        Some(x) => x,
        None => return Err(MovieRevieError::InvalidDataLength),
    };
    let seeds = with_bump(review_seed_bytes(&initializer, &review.title), bump);
    let cseeds = with_bump(counter_seed_bytes(&pda), cbump);
    let allocs = vec![
        Allocation { slot: 1, space: REVIEW_SLOT_LEN, seeds },
        Allocation { slot: 2, space: MovieCommentCounter::size(), seeds: cseeds },
    ];
    accounts.set(1, Slot { key: r1.key, owner: r1.owner, is_signer: r1.is_signer, data: rd });
    accounts.set(2, Slot { key: c1.key, owner: c1.owner, is_signer: c1.is_signer, data: cd });
    assert(slots_view(accounts@) =~= accs.update(1, with_data(r1@, rd@)).update(
        2,
        with_data(c1@, cd@),
    ));
    assert(allocations_view(allocs@) =~= seq![
        AllocationView {
            slot: 1,
            space: REVIEW_SLOT_LEN,
            seeds: signer_seeds(review_seeds(accs[0].key, review.title@), bump),
        },
        AllocationView {
            slot: 2,
            space: 20,
            seeds: signer_seeds(counter_seeds(pda@), cbump),
        },
    ]);
    Ok(allocs)
}

/// Updates the title, rating and description of an existing review.
///
/// The slots are: the author, who signs; the review; the allocator. On success
/// the review slot holds the updated record and nothing is to be created; on
/// failure nothing changes.
pub fn update_movie_review(
    program_id: &Address,
    accounts: &mut Vec<Slot>,
    title: String,
    rating: u8,
    description: String,
) -> (r: Result<Vec<Allocation>, MovieRevieError>)
    ensures
        match r {
            Ok(allocs) => update_review_outcome(
                program_id@,
                slots_view(old(accounts)@),
                title@,
                rating,
                description@,
            ) == succeeded(slots_view(final(accounts)@), allocations_view(allocs@)),
            Err(e) => update_review_outcome(
                program_id@,
                slots_view(old(accounts)@),
                title@,
                rating,
                description@,
            ) == failed(e) && final(accounts)@ == old(accounts)@,
        },
{
    let ghost accs = slots_view(accounts@);
    if rating < 1 || rating > 5 {
        return Err(MovieRevieError::InvalidRating);
    }
    if MovieAccountState::get_account_size(&title, &description).is_none() {
        return Err(MovieRevieError::InvalidDataLength);
    }
    if accounts.len() < 3 {
        return Err(MovieRevieError::NotEnoughAccountKeys);
    }
    if !accounts[0].is_signer {
        return Err(MovieRevieError::MissingSignature);
    }
    if !accounts[1].owner.same(program_id) {
        return Err(MovieRevieError::IllegalOwner);
    }
    let initializer = accounts[0].key;
    let (pda, _bump) = match derive_review_address(program_id, &initializer, &title) {
        Some(x) => x,
        None => return Err(MovieRevieError::InvalidPDA),
    };
    if !pda.same(&accounts[1].key) {
        return Err(MovieRevieError::InvalidPDA);
    }
    let old_rec = match MovieAccountState::decode(accounts[1].data.as_slice()) {
        Some(x) => x,
        None => return Err(MovieRevieError::DecodeError),
    };
    if !old_rec.is_initialized {
        return Err(MovieRevieError::UninitializedAccount);
    }
    let review = MovieAccountState {
        is_initialized: old_rec.is_initialized,
        discriminator: old_rec.discriminator,
        reviewer: old_rec.reviewer,
        title,
        rating,
        description,
    };
    proof {
        crate::state::lemma_tag_lens();
    }
    let d = match write_prefix(&accounts[1].data, review.encode()) {
        Some(x) => x,
        None => return Err(MovieRevieError::InvalidDataLength),
    };
    let s = Slot {
        key: accounts[1].key,
        owner: accounts[1].owner,
        is_signer: accounts[1].is_signer,
        data: d,
    };
    accounts.set(1, s);
    assert(slots_view(accounts@) =~= accs.update(1, with_data(accs[1], d@)));
    let allocs: Vec<Allocation> = Vec::new();
    assert(allocations_view(allocs@) =~= Seq::<AllocationView>::empty());
    Ok(allocs)
}

/// Adds the next comment to a review and advances its counter.
///
/// The slots are: the commenter, who signs; the review; its counter; the comment;
/// the allocator. The comment's address is derived from the review and the counter's
/// current value, and the counter moves on by one only once the comment is written.
/// On failure nothing changes.
pub fn add_comment(program_id: &Address, accounts: &mut Vec<Slot>, comment: String) -> (r: Result<
    Vec<Allocation>,
    MovieRevieError,
>)
    ensures
        match r {
            Ok(allocs) => add_comment_outcome(program_id@, slots_view(old(accounts)@), comment@)
                == succeeded(slots_view(final(accounts)@), allocations_view(allocs@)),
            Err(e) => add_comment_outcome(program_id@, slots_view(old(accounts)@), comment@)
                == failed(e) && final(accounts)@ == old(accounts)@,
        },
{
    let ghost accs = slots_view(accounts@);
    if accounts.len() < 5 {
        return Err(MovieRevieError::NotEnoughAccountKeys);
    }
    if !accounts[0].is_signer {
        return Err(MovieRevieError::MissingSignature);
    }
    let commenter = accounts[0].key;
    let review = accounts[1].key;
    let (cpda, _cbump) = match derive_counter_address(program_id, &review) {
        Some(x) => x,
        None => return Err(MovieRevieError::InvalidPDA),
    };
    if !cpda.same(&accounts[2].key) {
        return Err(MovieRevieError::InvalidPDA);
    }
    let c = match MovieCommentCounter::decode(accounts[2].data.as_slice()) {
        Some(x) => x,
        None => return Err(MovieRevieError::DecodeError),
    };
    let (pda, bump) = match derive_comment_address(program_id, &review, c.counter) {
        Some(x) => x,
        None => return Err(MovieRevieError::InvalidPDA),
    };
    if !pda.same(&accounts[3].key) {
        return Err(MovieRevieError::InvalidPDA);
    }
    let space = match MovieComment::get_account_size(&comment) {
        Some(n) => n,
        None => return Err(MovieRevieError::InvalidDataLength),
    };
    let s1 = allocate(&accounts[3], space, program_id);
    let old_c = match MovieComment::decode(s1.data.as_slice()) {
        Some(x) => x,
        None => return Err(MovieRevieError::DecodeError),
    };
    if old_c.is_initialized {
        return Err(MovieRevieError::AlreadyInitialized);
    }
    let rec = MovieComment {
        is_initialized: true,
        discriminator: comment_discriminator(),
        commenter,
        review,
        comment,
    };
    proof {
        crate::state::lemma_tag_lens();
    }
    let d3 = match write_prefix(&s1.data, rec.encode()) {
        Some(x) => x,
        None => return Err(MovieRevieError::InvalidDataLength),
    };
    if c.counter == u64::MAX {
        return Err(MovieRevieError::CounterOverflow);
    }
    let k = c.counter;
    let next = MovieCommentCounter {
        is_initialized: c.is_initialized,
        discriminator: c.discriminator,
        counter: k + 1,
    };
    let d2 = match write_prefix(&accounts[2].data, next.encode()) {
        Some(x) => x,
        None => return Err(MovieRevieError::InvalidDataLength),
    };
    let seeds = with_bump(comment_seed_bytes(&review, k), bump);
    let allocs = vec![Allocation { slot: 3, space, seeds }];
    let counter_slot = Slot {
        key: accounts[2].key,
        owner: accounts[2].owner,
        is_signer: accounts[2].is_signer,
        data: d2,
    };
    accounts.set(3, Slot { key: s1.key, owner: s1.owner, is_signer: s1.is_signer, data: d3 });
    accounts.set(2, counter_slot);
    assert(slots_view(accounts@) =~= accs.update(3, with_data(s1@, d3@)).update(
        2,
        with_data(accs[2], d2@),
    ));
    assert(allocations_view(allocs@) =~= seq![
        AllocationView {
            slot: 3,
            space: comment_len(rec.comment@) as usize,
            seeds: signer_seeds(comment_seeds(review@, k), bump),
        },
    ]);
    Ok(allocs)
}

/// Decodes the payload and carries out the operation it names.
pub fn process_instruction(program_id: &Address, accounts: &mut Vec<Slot>, data: &[u8]) -> (r:
    Result<Vec<Allocation>, MovieRevieError>)
    ensures
        match r {
            Ok(allocs) => process_outcome(program_id@, slots_view(old(accounts)@), data@)
                == succeeded(slots_view(final(accounts)@), allocations_view(allocs@)),
            Err(e) => process_outcome(program_id@, slots_view(old(accounts)@), data@) == failed(e)
                && final(accounts)@ == old(accounts)@,
        },
{
    let instruction = match MovieReviewInstruction::unpack(data) {
        Ok(i) => i,
        Err(e) => return Err(e),
    };
    match instruction {
        MovieReviewInstruction::AddReview { title, rating, description } => add_movie_review(
            program_id,
            accounts,
            title,
            rating,
            description,
        ),
        MovieReviewInstruction::UpdateReview { title, rating, description } => update_movie_review(
            program_id,
            accounts,
            title,
            rating,
            description,
        ),
        MovieReviewInstruction::AddComment { comment } => add_comment(program_id, accounts, comment),
    }
}

} // verus!
