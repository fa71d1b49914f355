//! Chain-head heights reported by each backend's subscription feed.
use vstd::prelude::*;
use crate::text::str_equal;

verus! {

/// Whether a secondary lags too far behind the primary. Without the primary's
/// height nothing can be judged (not behind); with it but without the
/// secondary's, the secondary counts as behind; otherwise it is behind when
/// the primary leads by more than `tolerance` blocks.
pub open spec fn lags_behind(primary: Option<u64>, secondary: Option<u64>, tolerance: u64) -> bool {
    match primary {
        None => false,
        Some(p) => match secondary {
            None => true,
            Some(s) => p > s && p - s > tolerance,
        },
    }
}

/// Decides `lags_behind` from the two heights as they were read.
pub fn secondary_lags(primary: Option<u64>, secondary: Option<u64>, tolerance: u64) -> (r: bool)
    ensures
        r == lags_behind(primary, secondary, tolerance),
{
    match primary {
        None => false,
        Some(p) => match secondary {
            None => true,
            Some(s) => p > s && p - s > tolerance,
        },
    }
}

/// Without the primary's height a secondary is never behind; with it but
/// without the secondary's, the secondary is behind; a secondary level with
/// or ahead of the primary is never behind, and one that trails by more than
/// the tolerance always is (100 against 90 with tolerance 5, for one).
pub proof fn lemma_behind_cases(primary: u64, secondary: u64, tolerance: u64)
    ensures
        !lags_behind(None, Some(secondary), tolerance),
        !lags_behind(None, None, tolerance),
        lags_behind(Some(primary), None, tolerance),
        secondary >= primary ==> !lags_behind(Some(primary), Some(secondary), tolerance),
        primary > secondary && primary - secondary > tolerance ==> lags_behind(Some(primary), Some(secondary), tolerance),
        primary > secondary && primary - secondary <= tolerance ==> !lags_behind(Some(primary), Some(secondary), tolerance),
        lags_behind(Some(100), Some(90), 5),
{
}

/// Value of one hexadecimal digit, in either case.
pub open spec fn hex_digit(c: char) -> Option<nat> {
    if '0' <= c && c <= '9' {
        Some((c as nat - '0' as nat) as nat)
    } else if 'a' <= c && c <= 'f' {
        Some((c as nat - 'a' as nat + 10) as nat)
    } else if 'A' <= c && c <= 'F' {
        Some((c as nat - 'A' as nat + 10) as nat)
    } else {
        None
    }
}

pub open spec fn all_hex_digits(s: Seq<char>) -> bool {
    forall|i: int| 0 <= i < s.len() ==> (#[trigger] hex_digit(s[i])) is Some
}

/// Value of a run of hexadecimal digits, most significant first.
pub open spec fn hex_value(s: Seq<char>) -> nat
    decreases s.len(),
{
    if s.len() == 0 {
        0
    } else {
        hex_value(s.drop_last()) * 16 + match hex_digit(s.last()) {
            Some(d) => d,
            None => 0,
        }
    }
}

/// The text with every leading `0x` removed.
pub open spec fn strip_hex_prefixes(s: Seq<char>) -> Seq<char>
    decreases s.len(),
{
    if s.len() >= 2 && s[0] == '0' && s[1] == 'x' {
        strip_hex_prefixes(s.skip(2))
    } else {
        s
    }
}

/// The digits after the prefixes and an optional `+` sign.
pub open spec fn hex_digits_part(s: Seq<char>) -> Seq<char> {
    let t = strip_hex_prefixes(s);
    if t.len() > 0 && t[0] == '+' { t.skip(1) } else { t }
}

/// The block number written in a notification: hexadecimal, after any leading
/// `0x`, with at least one digit, and no larger than `u64::MAX`.
pub open spec fn block_number_of(s: Seq<char>) -> Option<u64> {
    hex_number(hex_digits_part(s))
}

/// A non-empty run of hexadecimal digits whose value fits in a `u64`.
pub open spec fn hex_number(d: Seq<char>) -> Option<u64> {
    if d.len() > 0 && all_hex_digits(d) && hex_value(d) <= u64::MAX {
        Some(hex_value(d) as u64)
    } else {
        None
    }
}

proof fn lemma_hex_value_grows(s: Seq<char>, k: int)
    requires
        0 <= k <= s.len(),
    ensures
        hex_value(s.subrange(0, k)) <= hex_value(s),
    decreases s.len() - k,
{
    if k < s.len() {
        lemma_hex_value_grows(s, k + 1);
        assert(s.subrange(0, k + 1).drop_last() =~= s.subrange(0, k));
    } else {
        assert(s.subrange(0, k) =~= s);
    }
}

fn hex_digit_exec(c: char) -> (r: Option<u64>)
    ensures
        match hex_digit(c) {
            Some(d) => r == Some(d as u64),
            None => r is None,
        },
{
    if '0' <= c && c <= '9' {
        Some(c as u64 - '0' as u64)
    } else if 'a' <= c && c <= 'f' {
        Some(c as u64 - 'a' as u64 + 10)
    } else if 'A' <= c && c <= 'F' {
        Some(c as u64 - 'A' as u64 + 10)
    } else {
        None
    }
}

/// Reads a block number as the subscription feed writes it (`"0x1b4"`).
pub fn parse_block_number(s: &str) -> (r: Option<u64>)
    ensures
        r == block_number_of(s@),
{
    let n = s.unicode_len();
    let mut start: usize = 0;
    assert(s@.skip(0) =~= s@);
    while 2 <= n - start && s.get_char(start) == '0' && s.get_char(start + 1) == 'x'
        invariant
            n == s@.len(),
            start <= n,
            strip_hex_prefixes(s@.skip(start as int)) == strip_hex_prefixes(s@),
        decreases n - start,
    {
        assert(s@.skip(start as int).skip(2) =~= s@.skip(start + 2));
        start = start + 2;
    }
    assert(strip_hex_prefixes(s@.skip(start as int)) == s@.skip(start as int));
    if start < n && s.get_char(start) == '+' {
        assert(s@.skip(start as int).skip(1) =~= s@.skip(start + 1));
        start = start + 1;
    }
    assert(s@.skip(start as int) == hex_digits_part(s@));
    hex_digits_from(s, start)
}

#[verifier::rlimit(40)]
fn hex_digits_from(s: &str, start: usize) -> (r: Option<u64>)
    requires
        start <= s@.len(),
    ensures
        r == hex_number(s@.skip(start as int)),
{
    let n = s.unicode_len();
    let ghost digits = s@.skip(start as int);
    if start == n {
        return None;
    }
    let mut value: u64 = 0;
    let mut i: usize = start;
    while i < n
        invariant
            n == s@.len(),
            start <= i <= n,
            digits == s@.skip(start as int),
            all_hex_digits(digits.subrange(0, i - start)),
            value as nat == hex_value(digits.subrange(0, i - start)),
        decreases n - i,
    {
        let c = s.get_char(i);
        let ghost prefix = digits.subrange(0, i - start + 1);
        assert(prefix.drop_last() =~= digits.subrange(0, i - start));
        assert(prefix.last() == c);
        match hex_digit_exec(c) {
            None => {
                assert(!all_hex_digits(digits)) by {
                    assert(digits[i - start] == c);
                    assert(hex_digit(digits[i - start]) is None);
                }
                return None;
            },
            Some(d) => {
                assert(hex_value(prefix) == value * 16 + d);
                if value > (u64::MAX - d) / 16 {
                    proof {
                        lemma_hex_value_grows(digits, i - start + 1);
                    }
                    assert(hex_value(prefix) > u64::MAX) by (nonlinear_arith)
                        requires
                            hex_value(prefix) == value * 16 + d,
                            value > (u64::MAX - d) / 16,
                            d < 16,
                    {
                    }
                    return None;
                }
                assert(value * 16 + d <= u64::MAX) by (nonlinear_arith)
                    requires
                        value <= (u64::MAX - d) / 16,
                        d < 16,
                {
                }
                assert(all_hex_digits(prefix)) by {
                    assert forall|j: int| 0 <= j < prefix.len() implies (#[trigger] hex_digit(prefix[j])) is Some by {
                        if j < prefix.len() - 1 {
                            assert(prefix[j] == digits.subrange(0, i - start)[j]);
                        }
                    }
                }
                value = value * 16 + d;
            },
        }
        i = i + 1;
    }
    assert(digits.subrange(0, n - start) =~= digits);
    Some(value)
}

/// The height carried by a subscription notification: a message whose method
/// is `eth_subscription` and whose header number parses; anything else
/// carries none.
pub fn height_from_notification(method: &str, number: &str) -> (r: Option<u64>)
    ensures
        r == (if method@ == "eth_subscription"@ { block_number_of(number@) } else { None }),
{
    if str_equal(method, "eth_subscription") {
        parse_block_number(number)
    } else {
        None
    }
}

} // verus!
