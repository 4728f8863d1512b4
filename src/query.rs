//! The block-range query of `GET /blocks?start=&end=`.
use vstd::prelude::*;
use crate::error::ApiError;
use crate::ident::{height_value, is_height_text, parse_height};

verus! {

/// The most blocks one call may ask for.
pub const MAX_BLOCK_RANGE: u32 = 50;

/// A range of heights, `start` included and `end` excluded.
#[derive(Clone, Copy, Debug, PartialEq, Eq, Structural)]
pub struct BlockRange {
    pub start: u32,
    pub end: u32,
}

/// A range that may be served: in order, and not longer than the bound.
pub open spec fn range_ok(start: nat, end: nat) -> bool {
    start <= end && end - start <= MAX_BLOCK_RANGE
}

/// Reads the `start` and `end` parameters of a block-range query.
pub fn parse_block_range(start: &str, end: &str) -> (r: Result<BlockRange, ApiError>)
    ensures
        r is Ok <==> is_height_text(start@) && is_height_text(end@) && range_ok(
            height_value(start@),
            height_value(end@),
        ),
        r matches Ok(b) ==> b.start as nat == height_value(start@) && b.end as nat
            == height_value(end@),
        r is Err ==> r == Err::<BlockRange, ApiError>(ApiError::ClientInput),
{
    match (parse_height(start), parse_height(end)) {
        (Some(s), Some(e)) => {
            if s > e || e - s > MAX_BLOCK_RANGE {
                Err(ApiError::ClientInput)
            } else {
                Ok(BlockRange { start: s, end: e })
            }
        },
        _ => Err(ApiError::ClientInput),
    }
}

impl BlockRange {
    /// The heights of the range, in increasing order.
    pub fn heights(&self) -> (r: Vec<u32>)
        requires
            self.start <= self.end,
        ensures
            r@.len() == self.end - self.start,
            forall|i: int| 0 <= i < r@.len() ==> #[trigger] r@[i] == self.start + i,
    {
        let mut r: Vec<u32> = Vec::new();
        let mut h: u32 = self.start;
        while h < self.end
            invariant
                self.start <= h <= self.end,
                r@.len() == h - self.start,
                forall|i: int| 0 <= i < r@.len() ==> #[trigger] r@[i] == self.start + i,
            decreases self.end - h,
        {
            r.push(h);
            h = h + 1;
        }
        r
    }
}

} // verus!
