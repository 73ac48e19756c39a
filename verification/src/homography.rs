use vstd::prelude::*;

use crate::decimal::{decimal, push_decimal};

verus! {

/// Fewest point correspondences that determine a planar homography
/// (eight degrees of freedom, two equations per correspondence).
pub const MIN_CORRESPONDENCES: usize = 4;

/// Errors that can arise while fitting or applying a homography.
#[derive(Debug, Clone, PartialEq, Eq, Structural)]
pub enum HomographyError {
    /// Fewer than four correspondences were supplied.
    TooFewPoints {
        /// Number of correspondences provided.
        got: usize,
    },
    /// The source and destination point lists had different lengths.
    LengthMismatch {
        /// Length of the source list.
        src: usize,
        /// Length of the destination list.
        dst: usize,
    },
    /// The normal-equations system was singular (degenerate or collinear
    /// calibration points): no unique homography exists.
    Singular,
}

/// Checks the sizes of the two correspondence lists handed to a homography
/// fit. On success returns the number of correspondences `n`, from which the
/// fit builds a system of `2 * n` equations.
pub fn check_correspondences(src_len: usize, dst_len: usize) -> (r: Result<usize, HomographyError>)
    ensures
        src_len != dst_len ==> r == Err::<usize, HomographyError>(
            HomographyError::LengthMismatch { src: src_len, dst: dst_len },
        ),
        src_len == dst_len && src_len < MIN_CORRESPONDENCES ==> r == Err::<usize, HomographyError>(
            HomographyError::TooFewPoints { got: src_len },
        ),
        src_len == dst_len && src_len >= MIN_CORRESPONDENCES ==> r == Ok::<usize, HomographyError>(
            src_len,
        ),
{
    if src_len != dst_len {
        return Err(HomographyError::LengthMismatch { src: src_len, dst: dst_len });
    }
    if src_len < MIN_CORRESPONDENCES {
        return Err(HomographyError::TooFewPoints { got: src_len });
    }
    Ok(src_len)
}

/// The human-readable description of an error.
pub open spec fn error_message(e: HomographyError) -> Seq<char> {
    match e {
        HomographyError::TooFewPoints { got } =>
            "need at least 4 correspondences, got "@ + decimal(got as nat),
        HomographyError::LengthMismatch { src, dst } =>
            "src/dst length mismatch: "@ + decimal(src as nat) + " vs "@ + decimal(dst as nat),
        HomographyError::Singular => "degenerate correspondences: system is singular"@,
    }
}

impl HomographyError {
    /// Describes the error in words, as its display form.
    pub fn message(&self) -> (s: String)
        ensures
            s@ == error_message(*self),
    {
        match self {
            HomographyError::TooFewPoints { got } => {
                let mut s = String::from_str("need at least 4 correspondences, got ");
                push_decimal(&mut s, *got);
                s
            },
            HomographyError::LengthMismatch { src, dst } => {
                let mut s = String::from_str("src/dst length mismatch: ");
                push_decimal(&mut s, *src);
                s.append(" vs ");
                push_decimal(&mut s, *dst);
                s
            },
            HomographyError::Singular => {
                String::from_str("degenerate correspondences: system is singular")
            },
        }
    }
}

} // verus!
