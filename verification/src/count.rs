//! The environment-variable descriptor-count source.
//!
//! The supervisor communicates the descriptor count as the base-10 text of a
//! non-negative integer. An absent value, a malformed value, and a value too
//! large for a machine word all degrade to a count of zero: this source never
//! fails.

use vstd::prelude::*;

verus! {

/// Whether `b` is the code of an ASCII decimal digit.
pub open spec fn is_ascii_digit(b: u8) -> bool {
    48 <= b && b <= 57
}

/// The value of `s` read as big-endian decimal digits.
pub open spec fn digits_value(s: Seq<u8>) -> int
    decreases s.len(),
{
    if s.len() == 0 {
        0
    } else {
        10 * digits_value(s.drop_last()) + (s.last() - 48)
    }
}

/// Whether every byte of `s` is a decimal digit.
pub open spec fn all_digits(s: Seq<u8>) -> bool {
    forall|i: int| 0 <= i < s.len() ==> is_ascii_digit(#[trigger] s[i])
}

/// Where the digits of a count text begin: one leading `+` sign is accepted.
pub open spec fn digit_run_start(s: Seq<u8>) -> int {
    if s.len() > 0 && s[0] == 43 {
        1
    } else {
        0
    }
}

/// The digit portion of a count text: everything after the optional sign.
pub open spec fn digit_run(s: Seq<u8>) -> Seq<u8> {
    s.subrange(digit_run_start(s), s.len() as int)
}

/// Whether `s` is well-formed count text: an optional `+` sign, then at
/// least one digit, with a value that fits in a 64-bit word.
pub open spec fn is_count_text(s: Seq<u8>) -> bool {
    &&& digit_run(s).len() > 0
    &&& all_digits(digit_run(s))
    &&& digits_value(digit_run(s)) <= u64::MAX
}

/// The count communicated by the text `s`: its decimal value if `s` is
/// well-formed count text, and zero otherwise.
pub open spec fn parsed_count(s: Seq<u8>) -> int {
    if is_count_text(s) {
        digits_value(digit_run(s))
    } else {
        0
    }
}

/// The count communicated by an environment value that may be absent:
/// absence means zero descriptors.
pub open spec fn env_count(value: Option<Seq<u8>>) -> int {
    match value {
        None => 0,
        Some(s) => parsed_count(s),
    }
}

/// The byte sequence held by an optional byte-slice value.
pub open spec fn env_value_view(value: Option<&[u8]>) -> Option<Seq<u8>> {
    match value {
        None => None::<Seq<u8>>,
        Some(s) => Some(s@),
    }
}

proof fn lemma_digits_value_nonneg(s: Seq<u8>)
    requires
        all_digits(s),
    ensures
        digits_value(s) >= 0,
    decreases s.len(),
{
    if s.len() > 0 {
        assert forall|i: int| 0 <= i < s.drop_last().len() implies is_ascii_digit(
            #[trigger] s.drop_last()[i],
        ) by {
            assert(s.drop_last()[i] == s[i]);
        }
        lemma_digits_value_nonneg(s.drop_last());
        assert(is_ascii_digit(s[s.len() - 1]));
    }
}

proof fn lemma_digits_value_prefix_le(s: Seq<u8>, k: int)
    requires
        all_digits(s),
        0 <= k <= s.len(),
    ensures
        digits_value(s.subrange(0, k)) <= digits_value(s),
    decreases s.len() - k,
{
    if k == s.len() {
        assert(s.subrange(0, k) =~= s);
    } else {
        let p = s.subrange(0, k);
        let q = s.subrange(0, k + 1);
        assert(q.drop_last() =~= p);
        assert(q.last() == s[k]);
        assert forall|i: int| 0 <= i < p.len() implies is_ascii_digit(#[trigger] p[i]) by {
            assert(p[i] == s[i]);
        }
        lemma_digits_value_nonneg(p);
        assert(is_ascii_digit(s[k]));
        assert(digits_value(q) >= digits_value(p));
        lemma_digits_value_prefix_le(s, k + 1);
    }
}

/// Reads a descriptor count from the value of the hand-off environment
/// variable: base-10, one optional leading `+` sign. An absent value, a
/// malformed value, and a value above `u64::MAX` all yield zero.
pub fn parse_listen_fds(value: Option<&[u8]>) -> (r: u64)
    ensures
        r as int == env_count(env_value_view(value)),
{
    let s: &[u8] = match value {
        None => {
            return 0;
        },
        Some(s) => s,
    };
    let n: usize = s.len();
    let offset: usize = if n > 0 && s[0] == 43u8 {
        1
    } else {
        0
    };
    if offset >= n {
        proof {
            assert(digit_run(s@).len() == 0);
        }
        return 0;
    }
    let mut acc: u64 = 0;
    let mut i: usize = offset;
    while i < n
        invariant
            env_value_view(value) == Some(s@),
            offset <= i <= n,
            n == s@.len(),
            offset < n,
            offset as int == digit_run_start(s@),
            all_digits(s@.subrange(offset as int, i as int)),
            acc as int == digits_value(s@.subrange(offset as int, i as int)),
        decreases n - i,
    {
        let b: u8 = s[i];
        if b < 48 || b > 57 {
            proof {
                assert(digit_run(s@)[i - offset] == s@[i as int]);
                assert(!all_digits(digit_run(s@)));
            }
            return 0;
        }
        let digit: u64 = (b - 48) as u64;
        let ghost prev = s@.subrange(offset as int, i as int);
        let ghost cur = s@.subrange(offset as int, i as int + 1);
        proof {
            assert(cur.drop_last() =~= prev);
            assert(cur.last() == s@[i as int]);
            assert(digits_value(cur) == 10 * (acc as int) + (digit as int));
        }
        let next: u64 = match acc.checked_mul(10) {
            Some(m) => match m.checked_add(digit) {
                Some(a) => a,
                None => {
                    proof {
                        lemma_count_text_overflowed(s@, offset as int, i as int, digits_value(cur));
                    }
                    return 0;
                },
            },
            None => {
                proof {
                    lemma_count_text_overflowed(s@, offset as int, i as int, digits_value(cur));
                }
                return 0;
            },
        };
        acc = next;
        i = i + 1;
        proof {
            assert forall|k: int| 0 <= k < cur.len() implies is_ascii_digit(#[trigger] cur[k]) by {
                if k < cur.len() - 1 {
                    assert(cur[k] == prev[k]);
                } else {
                    assert(cur[k] == s@[i - 1]);
                }
            }
        }
    }
    proof {
        assert(s@.subrange(offset as int, n as int) =~= digit_run(s@));
        assert(is_count_text(s@));
    }
    acc
}

proof fn lemma_count_text_overflowed(s: Seq<u8>, offset: int, i: int, cur_value: int)
    requires
        0 <= offset <= i < s.len(),
        offset == digit_run_start(s),
        cur_value == digits_value(s.subrange(offset, i + 1)),
        cur_value > u64::MAX,
    ensures
        !is_count_text(s),
{
    if all_digits(digit_run(s)) {
        assert(s.subrange(offset, i + 1) =~= digit_run(s).subrange(0, i + 1 - offset));
        lemma_digits_value_prefix_le(digit_run(s), i + 1 - offset);
    }
}

} // verus!
