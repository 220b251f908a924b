use crate::codec::{read_string, str_at};
use crate::error::MovieRevieError;
use vstd::prelude::*;

verus! {

/// An operation, as decoded from an invocation's payload.
#[derive(Debug)]
pub enum MovieReviewInstruction {
    AddReview { title: String, rating: u8, description: String },
    UpdateReview { title: String, rating: u8, description: String },
    AddComment { comment: String },
}

pub enum InstructionView {
    AddReview { title: Seq<char>, rating: u8, description: Seq<char> },
    UpdateReview { title: Seq<char>, rating: u8, description: Seq<char> },
    AddComment { comment: Seq<char> },
}

impl View for MovieReviewInstruction {
    type V = InstructionView;

    open spec fn view(&self) -> InstructionView {
        match self {
            MovieReviewInstruction::AddReview { title, rating, description } => {
                InstructionView::AddReview {
                    title: title@,
                    rating: *rating,
                    description: description@,
                }
            },
            MovieReviewInstruction::UpdateReview { title, rating, description } => {
                InstructionView::UpdateReview {
                    title: title@,
                    rating: *rating,
                    description: description@,
                }
            },
            MovieReviewInstruction::AddComment { comment } => InstructionView::AddComment {
                comment: comment@,
            },
        }
    }
}

/// The title, rating and description laid out from byte 1 of `d` to its end.
pub open spec fn review_payload(d: Seq<u8>) -> Option<(Seq<char>, u8, Seq<char>)> {
    match str_at(d, 1) {
        None => None,
        Some((title, p1)) => if p1 < d.len() {
            match str_at(d, p1 + 1) {
                Some((desc, p2)) => if p2 == d.len() {
                    Some((title, d[p1], desc))
                } else {
                    None
                },
                None => None,
            }
        } else {
            None
        },
    }
}

/// The operation that the payload `d` encodes: a leading operation byte, then its fields,
/// which must take up the rest exactly.
pub open spec fn parse_instruction(d: Seq<u8>) -> Option<InstructionView> {
    if d.len() == 0 {
        None
    } else if d[0] == 0 || d[0] == 1 {
        match review_payload(d) {
            Some((title, rating, description)) => if d[0] == 0 {
                Some(InstructionView::AddReview { title, rating, description })
            } else {
                Some(InstructionView::UpdateReview { title, rating, description })
            },
            None => None,
        }
    } else if d[0] == 2 {
        match str_at(d, 1) {
            Some((comment, p1)) => if p1 == d.len() {
                Some(InstructionView::AddComment { comment })
            } else {
                None
            },
            None => None,
        }
    } else {
        None
    }
}

impl MovieReviewInstruction {
    /// Decodes a payload, or fails with `DecodeError` exactly when it encodes no operation.
    pub fn unpack(input: &[u8]) -> (r: Result<MovieReviewInstruction, MovieRevieError>)
        ensures
            match r {
                Ok(ins) => parse_instruction(input@) == Some(ins@),
                Err(e) => parse_instruction(input@) is None && e == MovieRevieError::DecodeError,
            },
    {
        if input.len() == 0 {
            return Err(MovieRevieError::DecodeError);
        }
        let cmd = input[0];
        if cmd == 0 || cmd == 1 {
            let (title, left1) = match read_string(input, 1) {
                Some(x) => x,
                None => return Err(MovieRevieError::DecodeError),
            };
            if left1 == 0 {
                return Err(MovieRevieError::DecodeError);
            }
            let p1 = input.len() - left1;
            let rating = input[p1];
            let (description, left2) = match read_string(input, p1 + 1) {
                Some(x) => x,
                None => return Err(MovieRevieError::DecodeError),
            };
            if left2 != 0 {
                return Err(MovieRevieError::DecodeError);
            }
            if cmd == 0 {
                Ok(MovieReviewInstruction::AddReview { title, rating, description })
            } else {
                Ok(MovieReviewInstruction::UpdateReview { title, rating, description })
            }
        } else if cmd == 2 {
            let (comment, left1) = match read_string(input, 1) {
                Some(x) => x,
                None => return Err(MovieRevieError::DecodeError),
            };
            if left1 != 0 {
                return Err(MovieRevieError::DecodeError);
            }
            Ok(MovieReviewInstruction::AddComment { comment })
        } else {
            Err(MovieRevieError::DecodeError)
        }
    }
}

} // verus!
