use movie_review::address::Address;
use movie_review::instruction::MovieReviewInstruction;
use movie_review::state::{MovieAccountState, MovieComment, MovieCommentCounter};

#[test]
fn counter_layout() {
    let c = MovieCommentCounter { is_initialized: true, discriminator: "counter".to_string(), counter: 258 };
    let bytes = c.encode();
    assert_eq!(bytes, vec![1, 7, 0, 0, 0, b'c', b'o', b'u', b'n', b't', b'e', b'r', 2, 1, 0, 0, 0, 0, 0, 0]);
    assert_eq!(bytes.len(), MovieCommentCounter::size());
    let back = MovieCommentCounter::decode(&bytes).unwrap();
    assert_eq!(back.counter, 258);
    assert_eq!(back.discriminator, "counter");
}

#[test]
fn review_layout_round_trip() {
    let r = MovieAccountState {
        is_initialized: true,
        discriminator: "review".to_string(),
        reviewer: Address::new([3u8; 32]),
        title: "Über".to_string(),
        rating: 4,
        description: "ok".to_string(),
    };
    let mut bytes = r.encode();
    assert_eq!(bytes.len(), 1 + 4 + 6 + 32 + 4 + 5 + 1 + 4 + 2);
    assert_eq!(&bytes[..5], &[1, 6, 0, 0, 0]);
    assert_eq!(Some(bytes.len()), MovieAccountState::get_account_size(&r.title, &r.description));
    bytes.extend_from_slice(&[0u8; 10]);
    let back = MovieAccountState::decode(&bytes).unwrap();
    assert_eq!(back.title, "Über");
    assert_eq!(back.rating, 4);
    assert_eq!(back.reviewer, Address::new([3u8; 32]));
    assert_eq!(back.description, "ok");
}

#[test]
fn zeroed_slots_decode_as_uninitialized() {
    let r = MovieAccountState::decode(&[0u8; 1000]).unwrap();
    assert!(!r.is_initialized);
    assert_eq!(r.title, "");
    let c = MovieComment::decode(&[0u8; 80]).unwrap();
    assert!(!c.is_initialized);
    assert!(MovieComment::decode(&[0u8; 20]).is_none());
    assert!(MovieAccountState::decode(&[2u8; 100]).is_none());
}

#[test]
fn comment_size() {
    assert_eq!(MovieComment::get_account_size(&"Loved it".to_string()), Some(1 + 4 + 7 + 32 + 32 + 4 + 8));
    let c = MovieComment {
        is_initialized: true,
        discriminator: "comment".to_string(),
        commenter: Address::new([1u8; 32]),
        review: Address::new([2u8; 32]),
        comment: "Loved it".to_string(),
    };
    assert_eq!(c.encode().len(), 88);
}

#[test]
fn unpack_operations() {
    let mut p = vec![1u8, 2, 0, 0, 0, b'U', b'p', 3, 1, 0, 0, 0, b'z'];
    match MovieReviewInstruction::unpack(&p).unwrap() {
        MovieReviewInstruction::UpdateReview { title, rating, description } => {
            assert_eq!(title, "Up");
            assert_eq!(rating, 3);
            assert_eq!(description, "z");
        }
        other => panic!("unexpected {:?}", other),
    }
    p[0] = 0;
    assert!(matches!(MovieReviewInstruction::unpack(&p).unwrap(), MovieReviewInstruction::AddReview { .. }));
    let q = vec![2u8, 1, 0, 0, 0, b'!'];
    match MovieReviewInstruction::unpack(&q).unwrap() {
        MovieReviewInstruction::AddComment { comment } => assert_eq!(comment, "!"),
        other => panic!("unexpected {:?}", other),
    }
}
