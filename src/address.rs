use crate::codec::{u64_be, u64_be_bytes};
use solana_program::pubkey::Pubkey;
use vstd::prelude::*;
use vstd::string::StrSliceExecFns;
use vstd::utf8::encode_utf8;

verus! {

/// A 32-byte identity: a signer, a program, or a record's address.
#[derive(Debug, Clone, Copy, PartialEq, Eq)]
pub struct Address {
    pub bytes: [u8; 32],
}

impl View for Address {
    type V = Seq<u8>;

    open spec fn view(&self) -> Seq<u8> {
        self.bytes@
    }
}

impl Address {
    pub fn new(bytes: [u8; 32]) -> (r: Address)
        ensures
            r.bytes == bytes,
    {
        Address { bytes }
    }

    /// Whether the two addresses hold the same bytes.
    pub fn same(&self, other: &Address) -> (r: bool)
        ensures
            r == (self@ == other@),
    {
        let mut i: usize = 0;
        while i < 32
            invariant
                i <= 32,
                self@.len() == 32,
                other@.len() == 32,
                forall|j: int| 0 <= j < i ==> self@[j] == other@[j],
            decreases 32 - i,
        {
            if self.bytes[i] != other.bytes[i] {
                return false;
            }
            i = i + 1;
        }
        assert(self@ =~= other@);
        true
    }

    pub fn to_vec(&self) -> (r: Vec<u8>)
        ensures
            r@ == self@,
    {
        let mut r: Vec<u8> = Vec::new();
        let mut i: usize = 0;
        while i < 32
            invariant
                i <= 32,
                self@.len() == 32,
                r@ =~= self@.subrange(0, i as int),
            decreases 32 - i,
        {
            r.push(self.bytes[i]);
            i = i + 1;
        }
        assert(r@ =~= self@);
        r
    }
}

/// The address, and its bump, that the host derives from `seeds` under `program`.
pub uninterp spec fn program_address(seeds: Seq<Seq<u8>>, program: Seq<u8>) -> Option<(Seq<u8>, u8)>;

pub open spec fn seeds_view(seeds: Seq<Vec<u8>>) -> Seq<Seq<u8>> {
    seeds.map_values(|s: Vec<u8>| s@)
}

pub open spec fn found_view(r: Option<(Address, u8)>) -> Option<(Seq<u8>, u8)> {
    match r {
        Some((a, bump)) => Some((a@, bump)),
        None => None,
    }
}

/// Derives the address for `seeds` under `program`.
///
/// Relies on `Pubkey::try_find_program_address`: a function of the seeds and the
/// program alone, which finds nothing when a seed is longer than 32 bytes or when
/// the seeds and the bump together would be more than 16.
#[verifier::external_body]
fn find_address(seeds: &Vec<Vec<u8>>, program: &Address) -> (r: Option<(Address, u8)>)
    ensures
        found_view(r) == program_address(seeds_view(seeds@), program@),
        (exists|i: int| 0 <= i < seeds@.len() && #[trigger] seeds@[i]@.len() > 32) ==> r is None,
        seeds@.len() >= 16 ==> r is None,
{
    let refs: Vec<&[u8]> = seeds.iter().map(|s| s.as_slice()).collect();
    match Pubkey::try_find_program_address(&refs, &Pubkey::new_from_array(program.bytes)) {
        Some((key, bump)) => Some((Address { bytes: key.to_bytes() }, bump)),
        None => None,
    }
}

/// The seeds of a review: the author, then the title's bytes.
pub open spec fn review_seeds(reviewer: Seq<u8>, title: Seq<char>) -> Seq<Seq<u8>> {
    seq![reviewer, encode_utf8(title)]
}

/// The bytes of the tag `comment`.
pub open spec fn comment_tag() -> Seq<u8> {
    seq![99u8, 111u8, 109u8, 109u8, 101u8, 110u8, 116u8]
}

/// The seeds of a review's comment counter: the review's address, then the tag.
pub open spec fn counter_seeds(review: Seq<u8>) -> Seq<Seq<u8>> {
    seq![review, comment_tag()]
}

/// The seeds of the comment numbered `k`: the review's address, then `k` big-endian.
pub open spec fn comment_seeds(review: Seq<u8>, k: u64) -> Seq<Seq<u8>> {
    seq![review, u64_be(k)]
}

/// The seeds that authorise acting on a derived address: its seeds, then its bump.
pub open spec fn signer_seeds(seeds: Seq<Seq<u8>>, bump: u8) -> Seq<Seq<u8>> {
    seeds.push(seq![bump])
}

pub fn review_seed_bytes(reviewer: &Address, title: &String) -> (r: Vec<Vec<u8>>)
    ensures
        seeds_view(r@) == review_seeds(reviewer@, title@),
{
    let r = vec![reviewer.to_vec(), title.as_str().as_bytes_vec()];
    assert(seeds_view(r@) =~= review_seeds(reviewer@, title@));
    r
}

pub fn counter_seed_bytes(review: &Address) -> (r: Vec<Vec<u8>>)
    ensures
        seeds_view(r@) == counter_seeds(review@),
{
    // the tag reads "comment"
    let tag: Vec<u8> = vec![99u8, 111u8, 109u8, 109u8, 101u8, 110u8, 116u8];
    assert(tag@ =~= comment_tag());
    let r = vec![review.to_vec(), tag];
    assert(seeds_view(r@) =~= counter_seeds(review@));
    r
}

pub fn comment_seed_bytes(review: &Address, k: u64) -> (r: Vec<Vec<u8>>)
    ensures
        seeds_view(r@) == comment_seeds(review@, k),
{
    let r = vec![review.to_vec(), u64_be_bytes(k)];
    assert(seeds_view(r@) =~= comment_seeds(review@, k));
    r
}

/// Appends the bump to the seeds, so that they authorise acting on the derived address.
pub fn with_bump(seeds: Vec<Vec<u8>>, bump: u8) -> (r: Vec<Vec<u8>>)
    ensures
        seeds_view(r@) == signer_seeds(seeds_view(seeds@), bump),
{
    let mut r = seeds;
    let b: Vec<u8> = vec![bump];
    assert(b@ =~= seq![bump]);
    r.push(b);
    assert(seeds_view(r@) =~= signer_seeds(seeds_view(seeds@), bump));
    r
}

/// The address of the review that an author writes under `title`.
pub fn derive_review_address(program: &Address, reviewer: &Address, title: &String) -> (r: Option<
    (Address, u8),
>)
    ensures
        found_view(r) == program_address(review_seeds(reviewer@, title@), program@),
{
    find_address(&review_seed_bytes(reviewer, title), program)
}

/// The address of the comment counter of the review at `review`.
pub fn derive_counter_address(program: &Address, review: &Address) -> (r: Option<(Address, u8)>)
    ensures
        found_view(r) == program_address(counter_seeds(review@), program@),
{
    find_address(&counter_seed_bytes(review), program)
}

/// The address of the comment numbered `k` under the review at `review`.
pub fn derive_comment_address(program: &Address, review: &Address, k: u64) -> (r: Option<
    (Address, u8),
>)
    ensures
        found_view(r) == program_address(comment_seeds(review@, k), program@),
{
    find_address(&comment_seed_bytes(review, k), program)
}

} // verus!
