//! Validation of the interactively entered target dimensions, and the small
//! state machine behind the width/height prompt loop. The loop itself (the
//! printing and the reading) lives outside the library; each line it reads is
//! judged here.

use vstd::prelude::*;
use vstd::string::StringSliceAdditionalSpecFns;

verus! {

pub open spec fn is_ascii_space(b: u8) -> bool {
    b == 32 || 9 <= b <= 13
}

pub open spec fn is_ascii_digit(b: u8) -> bool {
    48 <= b <= 57
}

/// The bytes left after dropping leading ASCII whitespace.
pub open spec fn ltrim(s: Seq<u8>) -> Seq<u8>
    decreases s.len(),
{
    if s.len() > 0 && is_ascii_space(s[0]) {
        ltrim(s.drop_first())
    } else {
        s
    }
}

/// The bytes left after dropping trailing ASCII whitespace.
pub open spec fn rtrim(s: Seq<u8>) -> Seq<u8>
    decreases s.len(),
{
    if s.len() > 0 && is_ascii_space(s.last()) {
        rtrim(s.drop_last())
    } else {
        s
    }
}

pub open spec fn trimmed(s: Seq<u8>) -> Seq<u8> {
    rtrim(ltrim(s))
}

/// The digit run of a trimmed number: an optional leading plus sign is
/// dropped, the rest must be the digits.
pub open spec fn digits_of(s: Seq<u8>) -> Seq<u8> {
    if s.len() > 0 && s[0] == 43 {
        s.drop_first()
    } else {
        s
    }
}

pub open spec fn all_digits(s: Seq<u8>) -> bool {
    forall|i: int| 0 <= i < s.len() ==> is_ascii_digit(#[trigger] s[i])
}

/// The value of a run of decimal digits, most significant first.
pub open spec fn dec_val(s: Seq<u8>) -> int
    decreases s.len(),
{
    if s.len() == 0 {
        0
    } else {
        dec_val(s.drop_last()) * 10 + (s.last() - 48)
    }
}

/// What one line of user text means as a target dimension: after trimming
/// ASCII whitespace and dropping an optional leading plus sign, a non-empty
/// run of decimal digits whose value is positive and fits a u32. Anything
/// else is rejected, and the prompt loop asks again.
pub open spec fn parsed_dimension(s: Seq<u8>) -> Option<u32> {
    let d = digits_of(trimmed(s));
    if d.len() > 0 && all_digits(d) && 1 <= dec_val(d) <= u32::MAX {
        Some(dec_val(d) as u32)
    } else {
        None
    }
}

proof fn lemma_dec_val_nonneg(s: Seq<u8>)
    requires
        all_digits(s),
    ensures
        dec_val(s) >= 0,
    decreases s.len(),
{
    if s.len() > 0 {
        assert(all_digits(s.drop_last())) by {
            assert(forall|i: int|
                0 <= i < s.len() - 1 ==> s.drop_last()[i] == #[trigger] s[i]);
        }
        lemma_dec_val_nonneg(s.drop_last());
    }
}

/// Appending digits to a digit run never lowers its value.
proof fn lemma_dec_val_prefix(s: Seq<u8>, k: int)
    requires
        all_digits(s),
        0 <= k <= s.len(),
    ensures
        dec_val(s.subrange(0, k)) <= dec_val(s),
    decreases s.len() - k,
{
    if k == s.len() {
        assert(s.subrange(0, k) =~= s);
    } else {
        let p = s.subrange(0, k);
        let q = s.subrange(0, k + 1);
        assert(q.drop_last() =~= p);
        assert(all_digits(p)) by {
            assert(forall|i: int| 0 <= i < k ==> p[i] == #[trigger] s[i]);
        }
        lemma_dec_val_nonneg(p);
        assert(dec_val(q) == dec_val(p) * 10 + (q.last() - 48));
        assert(dec_val(p) * 10 >= dec_val(p));
        lemma_dec_val_prefix(s, k + 1);
    }
}

/// Parses one line of user text as a target dimension. `Some` exactly on the
/// lines `parsed_dimension` accepts; rejected lines make the caller prompt
/// again.
pub fn parse_dimension(text: &str) -> (r: Option<u32>)
    ensures
        r == parsed_dimension(text.spec_bytes()),
{
    let bytes = text.as_bytes();
    let ghost s = bytes@;
    let n = bytes.len();

    let mut lo: usize = 0;
    proof {
        assert(s.skip(0) =~= s);
    }
    while lo < n && (bytes[lo] == 32 || (9 <= bytes[lo] && bytes[lo] <= 13))
        invariant
            n == s.len(),
            bytes@ == s,
            0 <= lo <= n,
            ltrim(s) == ltrim(s.skip(lo as int)),
        decreases n - lo,
    {
        proof {
            assert(s.skip(lo as int).drop_first() =~= s.skip(lo as int + 1));
        }
        lo += 1;
    }
    proof {
        assert(ltrim(s) =~= s.subrange(lo as int, n as int)) by {
            assert(s.skip(lo as int) =~= s.subrange(lo as int, n as int));
        }
    }

    let mut hi: usize = n;
    while hi > lo && (bytes[hi - 1] == 32 || (9 <= bytes[hi - 1] && bytes[hi - 1] <= 13))
        invariant
            n == s.len(),
            bytes@ == s,
            0 <= lo <= hi <= n,
            rtrim(s.subrange(lo as int, n as int)) == rtrim(s.subrange(lo as int, hi as int)),
        decreases hi,
    {
        proof {
            assert(s.subrange(lo as int, hi as int).drop_last() =~= s.subrange(
                lo as int,
                hi as int - 1,
            ));
        }
        hi -= 1;
    }
    proof {
        assert(trimmed(s) == s.subrange(lo as int, hi as int));
    }

    let mut start = lo;
    if hi > lo && bytes[lo] == 43 {
        start = lo + 1;
        proof {
            assert(digits_of(trimmed(s)) =~= s.subrange(start as int, hi as int)) by {
                assert(trimmed(s).drop_first() =~= s.subrange(lo as int + 1, hi as int));
            }
        }
    }
    let ghost d = s.subrange(start as int, hi as int);
    proof {
        assert(d =~= digits_of(trimmed(s)));
    }

    if start == hi {
        return None;
    }

    let mut acc: u64 = 0;
    let mut i = start;
    while i < hi
        invariant
            n == s.len(),
            bytes@ == s,
            0 <= start <= i <= hi <= n,
            hi > start,
            s == text.spec_bytes(),
            d == s.subrange(start as int, hi as int),
            d == digits_of(trimmed(s)),
            forall|j: int| start <= j < i ==> is_ascii_digit(#[trigger] s[j]),
            acc == dec_val(s.subrange(start as int, i as int)),
            acc <= u32::MAX,
        decreases hi - i,
    {
        let b = bytes[i];
        if !(48 <= b && b <= 57) {
            proof {
                assert(!is_ascii_digit(d[i - start]));
            }
            return None;
        }
        proof {
            assert(s.subrange(start as int, i as int + 1).drop_last() =~= s.subrange(
                start as int,
                i as int,
            ));
            assert(s.subrange(start as int, i as int + 1).last() == b);
        }
        acc = acc * 10 + ((b - 48) as u64);
        i += 1;
        if acc > 0xFFFF_FFFF {
            proof {
                if all_digits(d) {
                    assert(s.subrange(start as int, i as int) =~= d.subrange(0, i - start));
                    lemma_dec_val_prefix(d, i - start);
                }
            }
            return None;
        }
    }
    proof {
        assert(s.subrange(start as int, i as int) =~= d);
        assert(all_digits(d));
    }
    if acc == 0 {
        return None;
    }
    Some(acc as u32)
}

/// A line the validator accepts always means a positive dimension: zero is
/// rejected like any other invalid entry.
pub proof fn lemma_parsed_dimension_positive(s: Seq<u8>)
    ensures
        parsed_dimension(s) matches Some(v) ==> v >= 1,
{
}

/// The state of the interactive prompt loop: first the width is asked for,
/// then the height; a line that does not parse leaves the state unchanged, so
/// the same question is asked again.
#[derive(Clone, Copy, Debug, PartialEq, Eq, Structural)]
pub enum PromptState {
    AwaitingWidth,
    AwaitingHeight(u32),
    BothValid(u32, u32),
}

pub open spec fn spec_prompt_step(state: PromptState, line: Seq<u8>) -> PromptState {
    match state {
        PromptState::AwaitingWidth => match parsed_dimension(line) {
            Some(w) => PromptState::AwaitingHeight(w),
            None => PromptState::AwaitingWidth,
        },
        PromptState::AwaitingHeight(w) => match parsed_dimension(line) {
            Some(h) => PromptState::BothValid(w, h),
            None => PromptState::AwaitingHeight(w),
        },
        PromptState::BothValid(w, h) => PromptState::BothValid(w, h),
    }
}

/// Every dimension the prompt loop's state holds is positive.
pub open spec fn prompt_state_positive(state: PromptState) -> bool {
    match state {
        PromptState::AwaitingWidth => true,
        PromptState::AwaitingHeight(w) => w >= 1,
        PromptState::BothValid(w, h) => w >= 1 && h >= 1,
    }
}

/// No line of user text can smuggle a zero dimension into the prompt loop:
/// positivity of the held dimensions is an invariant of the state machine.
pub proof fn lemma_prompt_keeps_dimensions_positive(state: PromptState, line: Seq<u8>)
    requires
        prompt_state_positive(state),
    ensures
        prompt_state_positive(spec_prompt_step(state, line)),
{
}

/// Feeds one line of user text to the prompt loop's state machine. A line
/// that parses as a dimension advances the state; any other line leaves it
/// unchanged, which makes the caller re-prompt. Once both dimensions are
/// valid, further lines change nothing.
pub fn prompt_step(state: PromptState, line: &str) -> (r: PromptState)
    ensures
        r == spec_prompt_step(state, line.spec_bytes()),
{
    match state {
        PromptState::AwaitingWidth => match parse_dimension(line) {
            Some(w) => PromptState::AwaitingHeight(w),
            None => PromptState::AwaitingWidth,
        },
        PromptState::AwaitingHeight(w) => match parse_dimension(line) {
            Some(h) => PromptState::BothValid(w, h),
            None => PromptState::AwaitingHeight(w),
        },
        PromptState::BothValid(w, h) => PromptState::BothValid(w, h),
    }
}

} // verus!
