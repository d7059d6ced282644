//! Construction of the shared context handed to every component at startup:
//! the shared configuration, the job registry, and the session pool, plus the
//! parsing of the one free-form query parameter the downstream surface takes.

use vstd::prelude::*;

use crate::model::{SharedGlobalState, SharedMap};
use crate::pool::SessionPool;
use crate::strutil::{all_digits, dec_val, lemma_dec_val_prefix_le};

verus! {

/// Builds the shared configuration and the empty job registry the service
/// starts with.
pub fn global_builder(admin_token: String, api_key: String) -> (r: (SharedGlobalState, SharedMap))
    ensures
        r.0.0.admin_token@ == "Bearer "@ + admin_token@,
        r.0.0.api_key == api_key,
        r.1.wf(),
        forall|k: Seq<char>| !r.1.spec_contains(k),
{
    let state = SharedGlobalState::new(admin_token, api_key);
    let map = SharedMap::new();
    (state, map)
}

/// Builds the session pool the service starts with: empty, and paused until
/// an operator fills it and resumes.
pub fn pool_builder() -> (r: SessionPool)
    ensures
        r.spec_sessions().len() == 0,
        r.spec_paused(),
        r.spec_capacity() == 0,
{
    let mut pool = SessionPool::new();
    pool.pause();
    pool
}

/// The digits of a numeral: an optional leading plus sign is dropped.
pub open spec fn numeral_digits(s: Seq<char>) -> Seq<char> {
    if s.len() > 0 && s[0] == '+' {
        s.drop_first()
    } else {
        s
    }
}

/// What the downstream title query uses as its offset: the value of the
/// parameter when it is a decimal numeral that fits, and zero for anything
/// else — an empty, malformed or too-large parameter never fails the query.
pub open spec fn parse_offset_spec(s: Seq<char>) -> u32 {
    let d = numeral_digits(s);
    if d.len() > 0 && all_digits(d) && dec_val(d) <= u32::MAX {
        dec_val(d) as u32
    } else {
        0
    }
}

/// Reads the offset parameter as [`parse_offset_spec`] describes.
pub fn parse_offset(s: &str) -> (r: u32)
    ensures
        r == parse_offset_spec(s@),
{
    let n = s.unicode_len();
    if n == 0 {
        return 0;
    }
    let skip: usize = if s.get_char(0) == '+' {
        1
    } else {
        0
    };
    let ghost d = numeral_digits(s@);
    proof {
        assert(d =~= s@.subrange(skip as int, n as int));
    }
    if n == skip {
        return 0;
    }
    let mut acc: u32 = 0;
    let mut i: usize = skip;
    while i < n
        invariant
            skip <= i <= n,
            n == s@.len(),
            d == numeral_digits(s@),
            d == s@.subrange(skip as int, n as int),
            d.len() == n - skip,
            all_digits(d.take(i - skip)),
            acc == dec_val(d.take(i - skip)),
        decreases n - i,
    {
        let c = s.get_char(i);
        if c < '0' || c > '9' {
            assert(d[i - skip] == c);
            assert(!all_digits(d));
            return 0;
        }
        let digit: u32 = (c as u32) - 48;
        proof {
            assert(d.take(i + 1 - skip).drop_last() =~= d.take(i - skip));
            assert(d.take(i + 1 - skip).last() == d[i - skip]);
            assert(d[i - skip] == s@[i as int]);
        }
        if acc > (u32::MAX - digit) / 10 {
            proof {
                assert(dec_val(d.take(i + 1 - skip)) == dec_val(d.take(i - skip)) * 10 + digit);
                assert(dec_val(d.take(i + 1 - skip)) > u32::MAX) by (nonlinear_arith)
                    requires
                        dec_val(d.take(i + 1 - skip)) == acc * 10 + digit,
                        acc > (u32::MAX - digit) / 10,
                        digit < 10,
                {
                }
                if all_digits(d) {
                    lemma_dec_val_prefix_le(d, i + 1 - skip);
                }
            }
            return 0;
        }
        acc = acc * 10 + digit;
        i = i + 1;
        proof {
            assert forall|j: int| 0 <= j < i - skip implies '0' <= #[trigger] d.take(i - skip)[j]
                && d.take(i - skip)[j] <= '9' by {
                if j < i - 1 - skip {
                    assert(d.take(i - 1 - skip)[j] == d.take(i - skip)[j]);
                }
            }
        }
    }
    proof {
        assert(d.take(n - skip) =~= d);
    }
    acc
}

} // verus!
