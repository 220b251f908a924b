use movie_review::address::{
    derive_comment_address, derive_counter_address, derive_review_address, Address,
};
use movie_review::error::MovieRevieError;
use movie_review::processor::{add_comment, add_movie_review, process_instruction, update_movie_review, Slot};
use movie_review::state::{MovieAccountState, MovieComment, MovieCommentCounter};

fn program() -> Address {
    Address::new([7u8; 32])
}

fn ident(b: u8) -> Address {
    Address::new([b; 32])
}

fn slot(key: Address, signer: bool) -> Slot {
    Slot { key, owner: Address::new([0u8; 32]), is_signer: signer, data: Vec::new() }
}

fn copy(s: &Slot) -> Slot {
    Slot { key: s.key, owner: s.owner, is_signer: s.is_signer, data: s.data.clone() }
}

fn string_field(out: &mut Vec<u8>, s: &str) {
    out.extend_from_slice(&(s.len() as u32).to_le_bytes());
    out.extend_from_slice(s.as_bytes());
}

fn review_payload(tag: u8, title: &str, rating: u8, description: &str) -> Vec<u8> {
    let mut out = vec![tag];
    string_field(&mut out, title);
    out.push(rating);
    string_field(&mut out, description);
    out
}

fn comment_payload(comment: &str) -> Vec<u8> {
    let mut out = vec![2u8];
    string_field(&mut out, comment);
    out
}

fn review_key(reviewer: &Address, title: &str) -> Address {
    derive_review_address(&program(), reviewer, &title.to_string()).unwrap().0
}

fn counter_key(review: &Address) -> Address {
    derive_counter_address(&program(), review).unwrap().0
}

fn comment_key(review: &Address, k: u64) -> Address {
    derive_comment_address(&program(), review, k).unwrap().0
}

/// Adds a review by the given author and gives back its slot and its counter's slot.
fn create_review(reviewer: &Address, title: &str, rating: u8, description: &str) -> (Slot, Slot) {
    let review = review_key(reviewer, title);
    let mut accounts = vec![
        slot(*reviewer, true),
        slot(review, false),
        slot(counter_key(&review), false),
        slot(ident(0), false),
    ];
    let allocs = process_instruction(&program(), &mut accounts, &review_payload(0, title, rating, description))
        .unwrap();
    assert_eq!(allocs.len(), 2);
    let counter = accounts.remove(2);
    let review = accounts.remove(1);
    (review, counter)
}

#[test]
fn derive_is_repeatable() {
    let a = derive_review_address(&program(), &ident(1), &"Up".to_string()).unwrap();
    let b = derive_review_address(&program(), &ident(1), &"Up".to_string()).unwrap();
    assert_eq!(a.0, b.0);
    assert_eq!(a.1, b.1);
    let other = derive_review_address(&program(), &ident(2), &"Up".to_string()).unwrap();
    assert_ne!(a.0, other.0);
}

#[test]
fn derive_refuses_long_seed() {
    let title = "t".repeat(33);
    assert!(derive_review_address(&program(), &ident(1), &title).is_none());
}

#[test]
fn scenario_review_comment_update() {
    let a = ident(1);
    let b = ident(2);
    let (review, counter) = create_review(&a, "Up", 5, "Great film");
    assert_eq!(review.key, review_key(&a, "Up"));
    assert_eq!(review.data.len(), 1000);
    assert_eq!(review.owner, program());
    let rec = MovieAccountState::decode(&review.data).unwrap();
    assert!(rec.is_initialized);
    assert_eq!(rec.rating, 5);
    assert_eq!(rec.reviewer, a);
    assert_eq!(rec.title, "Up");
    assert_eq!(rec.description, "Great film");
    assert_eq!(rec.discriminator, "review");
    assert_eq!(counter.key, counter_key(&review.key));
    let c = MovieCommentCounter::decode(&counter.data).unwrap();
    assert_eq!(c.counter, 0);
    assert!(c.is_initialized);

    let review_addr = review.key;
    let mut accounts = vec![
        slot(b, true),
        review,
        counter,
        slot(comment_key(&review_addr, 0), false),
        slot(ident(0), false),
    ];
    let allocs = process_instruction(&program(), &mut accounts, &comment_payload("Loved it")).unwrap();
    assert_eq!(allocs.len(), 1);
    assert_eq!(allocs[0].slot, 3);
    assert_eq!(allocs[0].space, accounts[3].data.len());
    let c = MovieCommentCounter::decode(&accounts[2].data).unwrap();
    assert_eq!(c.counter, 1);
    assert_eq!(accounts[3].key, comment_key(&review_addr, 0));
    let cm = MovieComment::decode(&accounts[3].data).unwrap();
    assert_eq!(cm.commenter, b);
    assert_eq!(cm.review, review_addr);
    assert_eq!(cm.comment, "Loved it");

    let review = accounts.remove(1);
    let mut accounts = vec![slot(a, true), review, slot(ident(0), false)];
    let allocs = process_instruction(&program(), &mut accounts, &review_payload(1, "Up", 2, "Revised")).unwrap();
    assert!(allocs.is_empty());
    let rec = MovieAccountState::decode(&accounts[1].data).unwrap();
    assert_eq!(rec.rating, 2);
    assert_eq!(rec.description, "Revised");
    assert_eq!(rec.reviewer, a);
    assert_eq!(rec.discriminator, "review");
}

#[test]
fn add_review_bad_rating() {
    for rating in [0u8, 6, 255] {
        let a = ident(1);
        let review = review_key(&a, "Up");
        let mut accounts = vec![slot(a, true), slot(review, false), slot(counter_key(&review), false), slot(ident(0), false)];
        let r = add_movie_review(&program(), &mut accounts, "Up".to_string(), rating, "x".to_string());
        assert_eq!(r.unwrap_err(), MovieRevieError::InvalidRating);
        assert!(accounts[1].data.is_empty());
        assert!(accounts[2].data.is_empty());
    }
}

#[test]
fn add_review_twice_is_refused() {
    let a = ident(1);
    let (review, counter) = create_review(&a, "Up", 5, "Great film");
    let before = review.data.clone();
    let mut accounts = vec![slot(a, true), review, counter, slot(ident(0), false)];
    let r = add_movie_review(&program(), &mut accounts, "Up".to_string(), 3, "Other".to_string());
    assert_eq!(r.unwrap_err(), MovieRevieError::AlreadyInitialized);
    assert_eq!(accounts[1].data, before);
    let rec = MovieAccountState::decode(&accounts[1].data).unwrap();
    assert_eq!(rec.rating, 5);
    assert_eq!(rec.description, "Great film");
}

#[test]
fn add_review_too_long() {
    let a = ident(1);
    let review = review_key(&a, "Up");
    let mut accounts = vec![slot(a, true), slot(review, false), slot(counter_key(&review), false), slot(ident(0), false)];
    let r = add_movie_review(&program(), &mut accounts, "Up".to_string(), 4, "d".repeat(990));
    assert_eq!(r.unwrap_err(), MovieRevieError::InvalidDataLength);
    // 1 + 4 + 6 + 32 + 4 + 2 + 1 + 4 + 946 == 1000 still fits
    let r = add_movie_review(&program(), &mut accounts, "Up".to_string(), 4, "d".repeat(946));
    assert!(r.is_ok());
    assert_eq!(MovieAccountState::decode(&accounts[1].data).unwrap().description.len(), 946);
}

#[test]
fn add_review_needs_signer_and_address() {
    let a = ident(1);
    let review = review_key(&a, "Up");
    let mut accounts = vec![slot(a, false), slot(review, false), slot(counter_key(&review), false), slot(ident(0), false)];
    let r = add_movie_review(&program(), &mut accounts, "Up".to_string(), 4, "x".to_string());
    assert_eq!(r.unwrap_err(), MovieRevieError::MissingSignature);
    let mut accounts = vec![slot(a, true), slot(ident(9), false), slot(counter_key(&review), false), slot(ident(0), false)];
    let r = add_movie_review(&program(), &mut accounts, "Up".to_string(), 4, "x".to_string());
    assert_eq!(r.unwrap_err(), MovieRevieError::InvalidPDA);
    let mut accounts = vec![slot(a, true), slot(review, false), slot(ident(9), false), slot(ident(0), false)];
    let r = add_movie_review(&program(), &mut accounts, "Up".to_string(), 4, "x".to_string());
    assert_eq!(r.unwrap_err(), MovieRevieError::InvalidPDA);
    assert!(accounts[1].data.is_empty());
    let mut accounts = vec![slot(a, true), slot(review, false)];
    let r = add_movie_review(&program(), &mut accounts, "Up".to_string(), 4, "x".to_string());
    assert_eq!(r.unwrap_err(), MovieRevieError::NotEnoughAccountKeys);
}

#[test]
fn update_uninitialized_is_refused() {
    let a = ident(1);
    let review = review_key(&a, "Up");
    let mut s = slot(review, false);
    s.owner = program();
    s.data = vec![0u8; 1000];
    let mut accounts = vec![slot(a, true), s, slot(ident(0), false)];
    let r = update_movie_review(&program(), &mut accounts, "Up".to_string(), 3, "x".to_string());
    assert_eq!(r.unwrap_err(), MovieRevieError::UninitializedAccount);
    assert_eq!(accounts[1].data, vec![0u8; 1000]);
}

#[test]
fn update_checks_owner_signer_and_address() {
    let a = ident(1);
    let (review, _counter) = create_review(&a, "Up", 5, "Great film");
    let mut other = copy(&review);
    other.owner = ident(3);
    let mut accounts = vec![slot(a, true), other, slot(ident(0), false)];
    let r = update_movie_review(&program(), &mut accounts, "Up".to_string(), 3, "x".to_string());
    assert_eq!(r.unwrap_err(), MovieRevieError::IllegalOwner);
    let mut accounts = vec![slot(a, false), copy(&review), slot(ident(0), false)];
    let r = update_movie_review(&program(), &mut accounts, "Up".to_string(), 3, "x".to_string());
    assert_eq!(r.unwrap_err(), MovieRevieError::MissingSignature);
    let mut accounts = vec![slot(ident(2), true), copy(&review), slot(ident(0), false)];
    let r = update_movie_review(&program(), &mut accounts, "Up".to_string(), 3, "x".to_string());
    assert_eq!(r.unwrap_err(), MovieRevieError::InvalidPDA);
    let mut accounts = vec![slot(a, true), copy(&review), slot(ident(0), false)];
    let r = update_movie_review(&program(), &mut accounts, "Up".to_string(), 9, "x".to_string());
    assert_eq!(r.unwrap_err(), MovieRevieError::InvalidRating);
    assert_eq!(accounts[1].data, review.data);
}

#[test]
fn comments_in_sequence() {
    let a = ident(1);
    let (review, counter) = create_review(&a, "Up", 5, "Great film");
    let review_addr = review.key;
    let mut review = review;
    let mut counter = counter;
    for k in 0u64..3 {
        let mut accounts = vec![
            slot(ident(2), true),
            review,
            counter,
            slot(comment_key(&review_addr, k), false),
            slot(ident(0), false),
        ];
        add_comment(&program(), &mut accounts, format!("comment {}", k)).unwrap();
        let cm = MovieComment::decode(&accounts[3].data).unwrap();
        assert_eq!(cm.comment, format!("comment {}", k));
        assert_eq!(accounts[3].key, comment_key(&review_addr, k));
        counter = accounts.remove(2);
        review = accounts.remove(1);
    }
    assert_eq!(MovieCommentCounter::decode(&counter.data).unwrap().counter, 3);
    assert_ne!(comment_key(&review_addr, 0), comment_key(&review_addr, 1));
    assert_ne!(comment_key(&review_addr, 1), comment_key(&review_addr, 2));
}

#[test]
fn comment_with_wrong_address_keeps_counter() {
    let a = ident(1);
    let (review, counter) = create_review(&a, "Up", 5, "Great film");
    let review_addr = review.key;
    let counter_before = counter.data.clone();
    // the counter is at 0, so the slot for 1 is the wrong one
    let mut accounts = vec![
        slot(ident(2), true),
        review,
        counter,
        slot(comment_key(&review_addr, 1), false),
        slot(ident(0), false),
    ];
    let r = add_comment(&program(), &mut accounts, "Hi".to_string());
    assert_eq!(r.unwrap_err(), MovieRevieError::InvalidPDA);
    assert_eq!(accounts[2].data, counter_before);
    assert!(accounts[3].data.is_empty());
    accounts[0].is_signer = false;
    accounts[3] = slot(comment_key(&review_addr, 0), false);
    let r = add_comment(&program(), &mut accounts, "Hi".to_string());
    assert_eq!(r.unwrap_err(), MovieRevieError::MissingSignature);
    assert_eq!(MovieCommentCounter::decode(&accounts[2].data).unwrap().counter, 0);
}

#[test]
fn comment_on_full_counter_overflows() {
    let a = ident(1);
    let (review, mut counter) = create_review(&a, "Up", 5, "Great film");
    let n = counter.data.len();
    for i in n - 8..n {
        counter.data[i] = 0xff;
    }
    let review_addr = review.key;
    let mut accounts = vec![
        slot(ident(2), true),
        review,
        counter,
        slot(comment_key(&review_addr, u64::MAX), false),
        slot(ident(0), false),
    ];
    let r = add_comment(&program(), &mut accounts, "Hi".to_string());
    assert_eq!(r.unwrap_err(), MovieRevieError::CounterOverflow);
    assert!(accounts[3].data.is_empty());
}

#[test]
fn undecodable_payloads() {
    let mut accounts: Vec<Slot> = Vec::new();
    for payload in [
        vec![],
        vec![3u8],
        vec![0u8, 1, 0],
        {
            let mut p = review_payload(0, "Up", 5, "x");
            p.push(0);
            p
        },
        {
            let mut p = comment_payload("x");
            p.pop();
            p
        },
        vec![2u8, 2, 0, 0, 0, 0xff, 0xfe],
    ] {
        let r = process_instruction(&program(), &mut accounts, &payload);
        assert_eq!(r.unwrap_err(), MovieRevieError::DecodeError);
    }
}
