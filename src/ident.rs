//! Path identifiers: the one helper that tells a block height from a block
//! hash in a path segment, shared by every route that takes either.
use vstd::prelude::*;
use crate::error::ApiError;

verus! {

pub open spec fn is_digit(c: char) -> bool {
    '0' <= c && c <= '9'
}

pub open spec fn all_digits(s: Seq<char>) -> bool {
    forall|i: int| 0 <= i < s.len() ==> #[trigger] is_digit(s[i])
}

pub open spec fn digit_value(c: char) -> nat {
    (c as nat - '0' as nat) as nat
}

/// The number that a string of decimal digits denotes.
pub open spec fn digits_value(s: Seq<char>) -> nat
    decreases s.len(),
{
    if s.len() == 0 {
        0
    } else {
        digits_value(s.drop_last()) * 10 + digit_value(s.last())
    }
}

/// The digits of an unsigned decimal: the text without one leading `+`.
pub open spec fn unsigned_digits(s: Seq<char>) -> Seq<char> {
    if s.len() > 0 && s[0] == '+' {
        s.drop_first()
    } else {
        s
    }
}

/// `s` is a block height: an optional `+`, then at least one decimal digit,
/// denoting a number that fits in 32 bits.
pub open spec fn is_height_text(s: Seq<char>) -> bool {
    let d = unsigned_digits(s);
    d.len() > 0 && all_digits(d) && digits_value(d) <= u32::MAX
}

/// The height that a height text denotes.
pub open spec fn height_value(s: Seq<char>) -> nat {
    digits_value(unsigned_digits(s))
}

/// The characters of the bech32 alphabet.
pub open spec fn is_bech32_char(c: char) -> bool {
    ||| ('0' <= c && c <= '9' && c != '1')
    ||| ('a' <= c && c <= 'z' && c != 'b' && c != 'i' && c != 'o')
}

/// The length of a block hash as written.
pub const BLOCK_HASH_LEN: usize = 61;

/// `s` has the shape of a block hash: `ab1`, then bech32 characters, to a
/// fixed width.
pub open spec fn is_block_hash_shaped(s: Seq<char>) -> bool {
    &&& s.len() == BLOCK_HASH_LEN
    &&& s[0] == 'a'
    &&& s[1] == 'b'
    &&& s[2] == '1'
    &&& forall|i: int| 3 <= i < s.len() ==> #[trigger] is_bech32_char(s[i])
}

proof fn lemma_digits_prefix_le(s: Seq<char>, i: int)
    requires
        0 <= i <= s.len(),
    ensures
        digits_value(s.subrange(0, i)) <= digits_value(s),
    decreases s.len() - i,
{
    if i < s.len() {
        lemma_digits_prefix_le(s, i + 1);
        let t = s.subrange(0, i + 1);
        assert(t.drop_last() =~= s.subrange(0, i));
    } else {
        assert(s.subrange(0, i) =~= s);
    }
}

/// Reads an unsigned 32-bit decimal, as `u32`'s `from_str` does.
pub fn parse_height(s: &str) -> (r: Option<u32>)
    ensures
        r is Some <==> is_height_text(s@),
        r matches Some(v) ==> v as nat == height_value(s@),
{
    let n = s.unicode_len();
    let ghost d = unsigned_digits(s@);
    let mut i: usize = 0;
    if n > 0 && s.get_char(0) == '+' {
        i = 1;
    }
    let start = i;
    proof {
        assert(d =~= s@.subrange(start as int, n as int));
    }
    if start == n {
        return None;
    }
    let mut acc: u64 = 0;
    while i < n
        invariant
            start <= i <= n,
            n == s@.len(),
            d =~= s@.subrange(start as int, n as int),
            d == unsigned_digits(s@),
            all_digits(s@.subrange(start as int, i as int)),
            acc as nat == digits_value(s@.subrange(start as int, i as int)),
            acc <= u32::MAX,
        decreases n - i,
    {
        let c = s.get_char(i);
        let ghost pre = s@.subrange(start as int, i as int);
        let ghost next = s@.subrange(start as int, i + 1);
        proof {
            assert(next.drop_last() =~= pre);
            assert(next.last() == c);
        }
        if c < '0' || c > '9' {
            assert(!is_digit(d[i - start]));
            return None;
        }
        let dv = (c as u32 - '0' as u32) as u64;
        acc = acc * 10 + dv;
        assert(all_digits(next)) by {
            assert forall|k: int| 0 <= k < next.len() implies #[trigger] is_digit(next[k]) by {
                if k < pre.len() {
                    assert(next[k] == pre[k]);
                }
            }
        }
        if acc > u32::MAX as u64 {
            proof {
                lemma_digits_prefix_le(d, i + 1 - start);
                assert(d.subrange(0, i + 1 - start) =~= next);
            }
            return None;
        }
        i = i + 1;
    }
    assert(s@.subrange(start as int, n as int) =~= d);
    Some(acc as u32)
}

/// The block identifier in a path: a height, or a hash.
#[derive(Clone, Debug, PartialEq, Eq)]
pub enum BlockId {
    Height(u32),
    Hash(String),
}

/// Tells a height from a hash: a height when the text reads as one, else a
/// hash when it has a hash's shape, else a client error.
pub fn parse_block_id(s: &str) -> (r: Result<BlockId, ApiError>)
    ensures
        is_height_text(s@) ==> (r matches Ok(BlockId::Height(h)) && h as nat == height_value(s@)),
        !is_height_text(s@) && is_block_hash_shaped(s@) ==> (r matches Ok(BlockId::Hash(t))
            && t@ == s@),
        !is_height_text(s@) && !is_block_hash_shaped(s@) ==> r == Err::<BlockId, ApiError>(
            ApiError::ClientInput,
        ),
{
    match parse_height(s) {
        Some(h) => Ok(BlockId::Height(h)),
        None => {
            if is_block_hash(s) {
                Ok(BlockId::Hash(s.to_owned()))
            } else {
                Err(ApiError::ClientInput)
            }
        },
    }
}

/// Whether `s` has the shape of a block hash.
pub fn is_block_hash(s: &str) -> (r: bool)
    ensures
        r == is_block_hash_shaped(s@),
{
    let n = s.unicode_len();
    if n != BLOCK_HASH_LEN {
        return false;
    }
    if s.get_char(0) != 'a' || s.get_char(1) != 'b' || s.get_char(2) != '1' {
        return false;
    }
    let mut i: usize = 3;
    while i < n
        invariant
            3 <= i <= n,
            n == s@.len(),
            forall|k: int| 3 <= k < i ==> #[trigger] is_bech32_char(s@[k]),
        decreases n - i,
    {
        let c = s.get_char(i);
        let ok = ('0' <= c && c <= '9' && c != '1') || ('a' <= c && c <= 'z' && c != 'b' && c
            != 'i' && c != 'o');
        if !ok {
            assert(!is_bech32_char(s@[i as int]));
            return false;
        }
        i = i + 1;
    }
    true
}

pub open spec fn digit_char(d: nat) -> char {
    ((d + '0' as nat) as u32) as char
}

/// The decimal form of `n`, without leading zeros.
pub open spec fn decimal(n: nat) -> Seq<char>
    decreases n,
{
    if n < 10 {
        seq![digit_char(n)]
    } else {
        decimal(n / 10).push(digit_char(n % 10))
    }
}

proof fn lemma_decimal_value(n: nat)
    ensures
        decimal(n).len() > 0,
        all_digits(decimal(n)),
        decimal(n)[0] != '+',
        digits_value(decimal(n)) == n,
    decreases n,
{
    if n >= 10 {
        lemma_decimal_value(n / 10);
        let s = decimal(n);
        assert(s.drop_last() =~= decimal(n / 10));
        assert(digit_value(digit_char(n % 10)) == n % 10);
        assert(n == (n / 10) * 10 + n % 10);
        assert forall|i: int| 0 <= i < s.len() implies #[trigger] is_digit(s[i]) by {
            if i < s.len() - 1 {
                assert(s[i] == decimal(n / 10)[i]);
            }
        }
    } else {
        assert(digits_value(decimal(n).drop_last()) == 0);
    }
}

/// A height and a hash are never confused: the decimal form of every 32-bit
/// height reads back as that height, and no text with the shape of a block
/// hash reads as a height. So a block asked for by its height and by its hash
/// reaches the ledger as that same height and that same hash.
pub proof fn lemma_block_ids_unambiguous(h: u32, s: Seq<char>)
    ensures
        is_height_text(decimal(h as nat)),
        height_value(decimal(h as nat)) == h as nat,
        is_block_hash_shaped(s) ==> !is_height_text(s),
{
    lemma_decimal_value(h as nat);
    if is_block_hash_shaped(s) {
        assert(unsigned_digits(s) == s);
        assert(!is_digit(s[0]));
    }
}

} // verus!
