use crate::address::Address;
use crate::codec::{
    bool_at, bool_byte, lemma_str_at, lemma_u64_le, push_u64_le, read_bool, read_string,
    read_u64_le, str_at, str_field, str_fits, str_len, u64_le, u64_of_le, write_string,
};
use vstd::prelude::*;
use vstd::utf8::{encode_utf8, is_ascii_chars_encode_utf8};

verus! {

/// The most bytes a review may take: the size of its slot.
pub const REVIEW_SLOT_LEN: usize = 1000;

/// The kind tag of a review.
pub open spec fn review_tag() -> Seq<char> {
    "review"@
}

/// The kind tag of a comment counter.
pub open spec fn counter_tag() -> Seq<char> {
    "counter"@
}

/// The kind tag of a comment.
pub open spec fn comment_kind_tag() -> Seq<char> {
    "comment"@
}

/// The tags are ASCII words of six and seven letters.
pub proof fn lemma_tag_lens()
    ensures
        encode_utf8(review_tag()).len() == 6,
        encode_utf8(counter_tag()).len() == 7,
        encode_utf8(comment_kind_tag()).len() == 7,
{
    reveal_strlit("review");
    reveal_strlit("counter");
    reveal_strlit("comment");
    is_ascii_chars_encode_utf8(review_tag());
    is_ascii_chars_encode_utf8(counter_tag());
    is_ascii_chars_encode_utf8(comment_kind_tag());
}

/// A review, as its slot holds it.
#[derive(Debug)]
pub struct MovieAccountState {
    pub is_initialized: bool,
    pub discriminator: String,
    pub reviewer: Address,
    pub title: String,
    pub rating: u8,
    pub description: String,
}

pub struct ReviewView {
    pub is_initialized: bool,
    pub discriminator: Seq<char>,
    pub reviewer: Seq<u8>,
    pub title: Seq<char>,
    pub rating: u8,
    pub description: Seq<char>,
}

impl View for MovieAccountState {
    type V = ReviewView;

    open spec fn view(&self) -> ReviewView {
        ReviewView {
            is_initialized: self.is_initialized,
            discriminator: self.discriminator@,
            reviewer: self.reviewer@,
            title: self.title@,
            rating: self.rating,
            description: self.description@,
        }
    }
}

/// The bytes of a review: flag, tag, author, title, rating, description.
pub open spec fn review_bytes(m: ReviewView) -> Seq<u8> {
    seq![bool_byte(m.is_initialized)] + str_field(m.discriminator) + m.reviewer + str_field(m.title)
        + seq![m.rating] + str_field(m.description)
}

/// A review can be laid out: a 32-byte author and strings whose lengths fit.
pub open spec fn review_fits(m: ReviewView) -> bool {
    m.reviewer.len() == 32 && str_fits(m.discriminator) && str_fits(m.title) && str_fits(
        m.description,
    )
}

/// The review that the bytes `d` start with, if they start with one.
pub open spec fn parse_review(d: Seq<u8>) -> Option<ReviewView> {
    match bool_at(d, 0) {
        None => None,
        Some(init) => match str_at(d, 1) {
            None => None,
            Some((disc, p1)) => if p1 + 32 <= d.len() {
                match str_at(d, p1 + 32) {
                    None => None,
                    Some((title, p2)) => if p2 < d.len() {
                        match str_at(d, p2 + 1) {
                            None => None,
                            Some((desc, _p3)) => Some(
                                ReviewView {
                                    is_initialized: init,
                                    discriminator: disc,
                                    reviewer: d.subrange(p1, p1 + 32),
                                    title: title,
                                    rating: d[p2],
                                    description: desc,
                                },
                            ),
                        }
                    } else {
                        None
                    },
                }
            } else {
                None
            },
        },
    }
}

/// The byte count of a review with these strings.
pub open spec fn review_len(disc: Seq<char>, title: Seq<char>, desc: Seq<char>) -> int {
    (1 + 4 + encode_utf8(disc).len() + 32 + 4 + encode_utf8(title).len() + 1 + 4 + encode_utf8(
        desc,
    ).len()) as int
}

/// A review reads back as itself from any bytes that start with its layout.
pub proof fn lemma_parse_review(m: ReviewView, rest: Seq<u8>)
    requires
        review_fits(m),
    ensures
        parse_review(review_bytes(m) + rest) == Some(m),
{
    let d = review_bytes(m) + rest;
    let a = seq![bool_byte(m.is_initialized)];
    let b = a + str_field(m.discriminator);
    let c = b + m.reviewer;
    let e = c + str_field(m.title);
    let f = e + seq![m.rating];
    let g = f + str_field(m.description);
    assert(d =~= a + str_field(m.discriminator) + (m.reviewer + str_field(m.title) + seq![m.rating]
        + str_field(m.description) + rest));
    lemma_str_at(
        m.discriminator,
        a,
        m.reviewer + str_field(m.title) + seq![m.rating] + str_field(m.description) + rest,
    );
    assert(d =~= c + str_field(m.title) + (seq![m.rating] + str_field(m.description) + rest));
    lemma_str_at(m.title, c, seq![m.rating] + str_field(m.description) + rest);
    assert(d =~= f + str_field(m.description) + rest);
    lemma_str_at(m.description, f, rest);
    assert(d.subrange(b.len() as int, b.len() + 32int) =~= m.reviewer);
    assert(d[e.len() as int] == m.rating);
}

impl MovieAccountState {
    /// Reads the review that `data` starts with.
    pub fn decode(data: &[u8]) -> (r: Option<MovieAccountState>)
        ensures
            match r {
                Some(rec) => parse_review(data@) == Some(rec@),
                None => parse_review(data@) is None,
            },
    {
        let init = match read_bool(data, 0) {
            Some(b) => b,
            None => return None,
        };
        let (discriminator, left1) = match read_string(data, 1) {
            Some(x) => x,
            None => return None,
        };
        let p1 = data.len() - left1;
        if left1 < 32 {
            return None;
        }
        let reviewer = read_address(data, p1);
        let (title, left2) = match read_string(data, p1 + 32) {
            Some(x) => x,
            None => return None,
        };
        let p2 = data.len() - left2;
        if left2 == 0 {
            return None;
        }
        let rating = data[p2];
        let (description, _left3) = match read_string(data, p2 + 1) {
            Some(x) => x,
            None => return None,
        };
        Some(
            MovieAccountState {
                is_initialized: init,
                discriminator,
                reviewer,
                title,
                rating,
                description,
            },
        )
    }

    /// The bytes of this review.
    pub fn encode(&self) -> (r: Vec<u8>)
        requires
            review_fits(self@),
        ensures
            r@ == review_bytes(self@),
    {
        let mut out: Vec<u8> = Vec::new();
        out.push(if self.is_initialized {
            1u8
        } else {
            0u8
        });
        write_string(&mut out, &self.discriminator);
        let reviewer = self.reviewer.to_vec();
        let mut i: usize = 0;
        let ghost start = out@;
        while i < 32
            invariant
                i <= 32,
                reviewer@.len() == 32,
                out@ =~= start + reviewer@.subrange(0, i as int),
            decreases 32 - i,
        {
            out.push(reviewer[i]);
            i = i + 1;
        }
        assert(reviewer@.subrange(0, 32) =~= reviewer@);
        write_string(&mut out, &self.title);
        out.push(self.rating);
        write_string(&mut out, &self.description);
        assert(out@ =~= review_bytes(self@));
        out
    }

    /// The byte count of a review with this title and description, if it fits its slot.
    pub fn get_account_size(title: &String, description: &String) -> (r: Option<usize>)
        ensures
            match r {
                Some(n) => n == review_len(review_tag(), title@, description@) && n
                    <= REVIEW_SLOT_LEN,
                None => review_len(review_tag(), title@, description@) > REVIEW_SLOT_LEN,
            },
    {
        let d = review_discriminator();
        let dl = str_len(&d);
        let tl = str_len(title);
        let sl = str_len(description);
        if dl > REVIEW_SLOT_LEN || tl > REVIEW_SLOT_LEN || sl > REVIEW_SLOT_LEN {
            return None;
        }
        let n = 1 + 4 + dl + 32 + 4 + tl + 1 + 4 + sl;
        if n > REVIEW_SLOT_LEN {
            None
        } else {
            Some(n)
        }
    }
}


/// The count of comments that a review has had, as its slot holds it.
#[derive(Debug)]
pub struct MovieCommentCounter {
    pub is_initialized: bool,
    pub discriminator: String,
    pub counter: u64,
}

pub struct CounterView {
    pub is_initialized: bool,
    pub discriminator: Seq<char>,
    pub counter: u64,
}

impl View for MovieCommentCounter {
    type V = CounterView;

    open spec fn view(&self) -> CounterView {
        CounterView {
            is_initialized: self.is_initialized,
            discriminator: self.discriminator@,
            counter: self.counter,
        }
    }
}

/// The bytes of a counter: flag, tag, count as a little-endian `u64`.
pub open spec fn counter_bytes(m: CounterView) -> Seq<u8> {
    seq![bool_byte(m.is_initialized)] + str_field(m.discriminator) + u64_le(m.counter)
}

/// The counter that the bytes `d` start with, if they start with one.
pub open spec fn parse_counter(d: Seq<u8>) -> Option<CounterView> {
    match bool_at(d, 0) {
        None => None,
        Some(init) => match str_at(d, 1) {
            None => None,
            Some((disc, p1)) => if p1 + 8 <= d.len() {
                Some(
                    CounterView {
                        is_initialized: init,
                        discriminator: disc,
                        counter: u64_of_le(d, p1),
                    },
                )
            } else {
                None
            },
        },
    }
}

/// A counter reads back as itself from any bytes that start with its layout.
pub proof fn lemma_parse_counter(m: CounterView, rest: Seq<u8>)
    requires
        str_fits(m.discriminator),
    ensures
        parse_counter(counter_bytes(m) + rest) == Some(m),
{
    let d = counter_bytes(m) + rest;
    let a = seq![bool_byte(m.is_initialized)];
    let b = a + str_field(m.discriminator);
    assert(d =~= a + str_field(m.discriminator) + (u64_le(m.counter) + rest));
    lemma_str_at(m.discriminator, a, u64_le(m.counter) + rest);
    assert(d =~= b + u64_le(m.counter) + rest);
    lemma_u64_le(m.counter, b, rest);
}

impl MovieCommentCounter {
    /// Reads the counter that `data` starts with.
    pub fn decode(data: &[u8]) -> (r: Option<MovieCommentCounter>)
        ensures
            match r {
                Some(rec) => parse_counter(data@) == Some(rec@),
                None => parse_counter(data@) is None,
            },
    {
        let init = match read_bool(data, 0) {
            Some(b) => b,
            None => return None,
        };
        let (discriminator, left1) = match read_string(data, 1) {
            Some(x) => x,
            None => return None,
        };
        let p1 = data.len() - left1;
        if left1 < 8 {
            return None;
        }
        let counter = read_u64_le(data, p1);
        Some(MovieCommentCounter { is_initialized: init, discriminator, counter })
    }

    /// The bytes of this counter.
    pub fn encode(&self) -> (r: Vec<u8>)
        requires
            str_fits(self.discriminator@),
        ensures
            r@ == counter_bytes(self@),
    {
        let mut out: Vec<u8> = Vec::new();
        out.push(if self.is_initialized {
            1u8
        } else {
            0u8
        });
        write_string(&mut out, &self.discriminator);
        push_u64_le(&mut out, self.counter);
        assert(out@ =~= counter_bytes(self@));
        out
    }

    /// The byte count of a counter, which is also the size of its slot.
    pub fn size() -> (r: usize)
        ensures
            r == 1 + 4 + encode_utf8(counter_tag()).len() + 8,
            r <= REVIEW_SLOT_LEN,
    {
        proof {
            lemma_tag_lens();
        }
        20
    }
}

/// A comment on a review, as its slot holds it.
#[derive(Debug)]
pub struct MovieComment {
    pub is_initialized: bool,
    pub discriminator: String,
    pub commenter: Address,
    pub review: Address,
    pub comment: String,
}

pub struct CommentView {
    pub is_initialized: bool,
    pub discriminator: Seq<char>,
    pub commenter: Seq<u8>,
    pub review: Seq<u8>,
    pub comment: Seq<char>,
}

impl View for MovieComment {
    type V = CommentView;

    open spec fn view(&self) -> CommentView {
        CommentView {
            is_initialized: self.is_initialized,
            discriminator: self.discriminator@,
            commenter: self.commenter@,
            review: self.review@,
            comment: self.comment@,
        }
    }
}

/// The bytes of a comment: flag, tag, commenter, review, text.
pub open spec fn comment_bytes(m: CommentView) -> Seq<u8> {
    seq![bool_byte(m.is_initialized)] + str_field(m.discriminator) + m.commenter + m.review
        + str_field(m.comment)
}

/// The byte count of a comment with this text.
pub open spec fn comment_len(comment: Seq<char>) -> int {
    (1 + 4 + encode_utf8(comment_kind_tag()).len() + 32 + 32 + 4 + encode_utf8(comment).len()) as int
}

/// The comment that the bytes `d` start with, if they start with one.
pub open spec fn parse_comment(d: Seq<u8>) -> Option<CommentView> {
    match bool_at(d, 0) {
        None => None,
        Some(init) => match str_at(d, 1) {
            None => None,
            Some((disc, p1)) => if p1 + 64 <= d.len() {
                match str_at(d, p1 + 64) {
                    None => None,
                    Some((text, _p2)) => Some(
                        CommentView {
                            is_initialized: init,
                            discriminator: disc,
                            commenter: d.subrange(p1, p1 + 32),
                            review: d.subrange(p1 + 32, p1 + 64),
                            comment: text,
                        },
                    ),
                }
            } else {
                None
            },
        },
    }
}

/// A comment reads back as itself from any bytes that start with its layout.
pub proof fn lemma_parse_comment(m: CommentView, rest: Seq<u8>)
    requires
        m.commenter.len() == 32,
        m.review.len() == 32,
        str_fits(m.discriminator),
        str_fits(m.comment),
    ensures
        parse_comment(comment_bytes(m) + rest) == Some(m),
{
    let d = comment_bytes(m) + rest;
    let a = seq![bool_byte(m.is_initialized)];
    let b = a + str_field(m.discriminator);
    let c = b + m.commenter + m.review;
    assert(d =~= a + str_field(m.discriminator) + (m.commenter + m.review + str_field(m.comment)
        + rest));
    lemma_str_at(m.discriminator, a, m.commenter + m.review + str_field(m.comment) + rest);
    assert(d =~= c + str_field(m.comment) + rest);
    lemma_str_at(m.comment, c, rest);
    assert(d.subrange(b.len() as int, b.len() + 32int) =~= m.commenter);
    assert(d.subrange(b.len() + 32int, b.len() + 64int) =~= m.review);
}

/// Reads the 32 bytes at `pos` as an address.
pub fn read_address(data: &[u8], pos: usize) -> (r: Address)
    requires
        pos + 32 <= data@.len(),
    ensures
        r@ == data@.subrange(pos as int, pos + 32int),
{
    let mut bytes: [u8; 32] = [0u8; 32];
    let mut i: usize = 0;
    while i < 32
        invariant
            i <= 32,
            pos + 32 <= data.len(),
            forall|j: int| 0 <= j < i ==> bytes@[j] == data@[pos + j],
        decreases 32 - i,
    {
        bytes[i] = data[pos + i];
        i = i + 1;
    }
    assert(bytes@ =~= data@.subrange(pos as int, pos + 32int));
    Address::new(bytes)
}

/// Appends the 32 bytes of `a` to `out`.
pub fn push_address(out: &mut Vec<u8>, a: &Address)
    ensures
        final(out)@ == old(out)@ + a@,
{
    let ghost start = out@;
    let mut i: usize = 0;
    while i < 32
        invariant
            i <= 32,
            a@.len() == 32,
            out@ =~= start + a@.subrange(0, i as int),
        decreases 32 - i,
    {
        out.push(a.bytes[i]);
        i = i + 1;
    }
    assert(a@.subrange(0, 32) =~= a@);
}

impl MovieComment {
    /// Reads the comment that `data` starts with.
    pub fn decode(data: &[u8]) -> (r: Option<MovieComment>)
        ensures
            match r {
                Some(rec) => parse_comment(data@) == Some(rec@),
                None => parse_comment(data@) is None,
            },
    {
        let init = match read_bool(data, 0) {
            Some(b) => b,
            None => return None,
        };
        let (discriminator, left1) = match read_string(data, 1) {
            Some(x) => x,
            None => return None,
        };
        let p1 = data.len() - left1;
        if left1 < 64 {
            return None;
        }
        let commenter = read_address(data, p1);
        let review = read_address(data, p1 + 32);
        let (comment, _left2) = match read_string(data, p1 + 64) {
            Some(x) => x,
            None => return None,
        };
        Some(MovieComment { is_initialized: init, discriminator, commenter, review, comment })
    }

    /// The bytes of this comment.
    pub fn encode(&self) -> (r: Vec<u8>)
        requires
            str_fits(self.discriminator@),
            str_fits(self.comment@),
        ensures
            r@ == comment_bytes(self@),
    {
        let mut out: Vec<u8> = Vec::new();
        out.push(if self.is_initialized {
            1u8
        } else {
            0u8
        });
        write_string(&mut out, &self.discriminator);
        push_address(&mut out, &self.commenter);
        push_address(&mut out, &self.review);
        write_string(&mut out, &self.comment);
        assert(out@ =~= comment_bytes(self@));
        out
    }

    /// The byte count of a comment with this text, which is also the size of its slot.
    pub fn get_account_size(comment: &String) -> (r: Option<usize>)
        ensures
            match r {
                Some(n) => n == comment_len(comment@) && str_fits(comment@),
                None => comment_len(comment@) > usize::MAX || !str_fits(comment@),
            },
    {
        proof {
            lemma_tag_lens();
        }
        let cl = str_len(comment);
        if cl > 4294967295usize || cl > usize::MAX - 80 {
            return None;
        }
        Some(1 + 4 + 7 + 32 + 32 + 4 + cl)
    }
}

pub fn review_discriminator() -> (r: String)
    ensures
        r@ == review_tag(),
{
    "review".to_string()
}

pub fn counter_discriminator() -> (r: String)
    ensures
        r@ == counter_tag(),
{
    "counter".to_string()
}

pub fn comment_discriminator() -> (r: String)
    ensures
        r@ == comment_kind_tag(),
{
    "comment".to_string()
}

} // verus!
