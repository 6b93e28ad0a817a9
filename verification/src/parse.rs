//! Parsing of memory-limit literals such as `512M`: a decimal magnitude
//! followed by an optional unit letter.

use vstd::prelude::*;

verus! {

use crate::SizePostfix;

/// Why a memory literal was rejected.
#[derive(Copy, Clone, Debug, PartialEq, Eq, Structural)]
pub enum MemoryParseError {
    /// The magnitude is empty or holds a character that is no decimal digit.
    NotANumber,
    /// The magnitude does not fit in 32 bits.
    TooLarge,
}

/// Whether `c` is a decimal digit.
pub open spec fn is_digit(c: char) -> bool {
    '0' as int <= c as int && c as int <= '9' as int
}

/// The numeric value of a decimal digit character.
pub open spec fn digit_val(c: char) -> nat {
    (c as int - '0' as int) as nat
}

/// The numeric value of a sequence of decimal digit characters, read most
/// significant digit first; zero for the empty sequence.
pub open spec fn dec_val(s: Seq<char>) -> nat
    decreases s.len(),
{
    if s.len() == 0 {
        0
    } else {
        dec_val(s.drop_last()) * 10 + digit_val(s.last())
    }
}

/// Whether every character of `s` is a decimal digit.
pub open spec fn all_digits(s: Seq<char>) -> bool {
    forall|i: int| 0 <= i < s.len() ==> is_digit(#[trigger] s[i])
}

/// The unit named by a trailing letter, if it is one of the four known ones.
pub open spec fn unit_of(c: char) -> Option<SizePostfix> {
    if c == 'K' {
        Some(SizePostfix::Kilo)
    } else if c == 'M' {
        Some(SizePostfix::Mega)
    } else if c == 'G' {
        Some(SizePostfix::Giga)
    } else if c == 'T' {
        Some(SizePostfix::Tera)
    } else {
        None
    }
}

/// The magnitude part and the unit of a memory literal: a known trailing
/// letter names the unit; otherwise the whole literal is the magnitude and
/// the unit is `Bytes`.
pub open spec fn split_memory(s: Seq<char>) -> (Seq<char>, SizePostfix) {
    if s.len() > 0 {
        match unit_of(s.last()) {
            Some(u) => (s.drop_last(), u),
            None => (s, SizePostfix::Bytes),
        }
    } else {
        (s, SizePostfix::Bytes)
    }
}

/// The value of a digit sequence is at least the value of any of its
/// prefixes.
proof fn lemma_dec_val_prefix(s: Seq<char>, i: int)
    requires
        0 <= i <= s.len(),
    ensures
        dec_val(s.take(i)) <= dec_val(s),
    decreases s.len(),
{
    if i == s.len() {
        assert(s.take(i) =~= s);
    } else {
        lemma_dec_val_prefix(s.drop_last(), i);
        assert(s.drop_last().take(i) =~= s.take(i));
    }
}

/// Parses a memory literal: a non-empty decimal magnitude followed by an
/// optional unit letter `K`, `M`, `G` or `T`.
///
/// Returns the magnitude and the unit exactly when the magnitude part is a
/// non-empty digit sequence whose value fits in 32 bits; `NotANumber` when
/// it is empty or holds a non-digit; `TooLarge` when its value does not fit.
pub fn parse_memory(s: &str) -> (r: Result<(u32, SizePostfix), MemoryParseError>)
    ensures
        ({
            let (digits, unit) = split_memory(s@);
            match r {
                Ok((n, p)) => digits.len() > 0 && all_digits(digits) && dec_val(digits)
                    <= u32::MAX && n == dec_val(digits) && p == unit,
                Err(MemoryParseError::NotANumber) => digits.len() == 0 || !all_digits(digits),
                Err(MemoryParseError::TooLarge) => digits.len() > 0 && all_digits(digits)
                    && dec_val(digits) > u32::MAX,
            }
        }),
{
    let len = s.unicode_len();
    let ghost split = split_memory(s@);
    let (dlen, unit): (usize, SizePostfix) = if len > 0 {
        let last = s.get_char(len - 1);
        if last == 'K' {
            (len - 1, SizePostfix::Kilo)
        } else if last == 'M' {
            (len - 1, SizePostfix::Mega)
        } else if last == 'G' {
            (len - 1, SizePostfix::Giga)
        } else if last == 'T' {
            (len - 1, SizePostfix::Tera)
        } else {
            (len, SizePostfix::Bytes)
        }
    } else {
        (0, SizePostfix::Bytes)
    };
    proof {
        assert(s@.take(dlen as int) =~= split.0);
        assert(unit == split.1);
    }
    if dlen == 0 {
        return Err(MemoryParseError::NotANumber);
    }
    let mut i: usize = 0;
    while i < dlen
        invariant
            i <= dlen <= s@.len(),
            split_memory(s@).0 == s@.take(dlen as int),
            forall|j: int| 0 <= j < i ==> is_digit(#[trigger] s@[j]),
        decreases dlen - i,
    {
        let c = s.get_char(i);
        let v = c as u32;
        if v < 48 || v > 57 {
            proof {
                assert(!is_digit(s@.take(dlen as int)[i as int]));
            }
            return Err(MemoryParseError::NotANumber);
        }
        i = i + 1;
    }
    proof {
        assert(all_digits(s@.take(dlen as int)));
    }
    let mut val: u32 = 0;
    let mut k: usize = 0;
    while k < dlen
        invariant
            0 < dlen <= s@.len(),
            k <= dlen,
            split_memory(s@).0 == s@.take(dlen as int),
            all_digits(s@.take(dlen as int)),
            val == dec_val(s@.take(k as int)),
        decreases dlen - k,
    {
        let c = s.get_char(k);
        proof {
            assert(s@.take(dlen as int)[k as int] == s@[k as int]);
            assert(is_digit(c));
        }
        let d = (c as u32) - 48;
        proof {
            assert(s@.take(k as int + 1).drop_last() =~= s@.take(k as int));
            assert(s@.take(k as int + 1).last() == s@[k as int]);
            assert(d == digit_val(s@[k as int]));
            assert(dec_val(s@.take(k as int + 1)) == dec_val(s@.take(k as int)) * 10 + digit_val(
                s@[k as int],
            ));
        }
        if val > 429496729 || (val == 429496729 && d > 5) {
            proof {
                assert(dec_val(s@.take(k as int + 1)) > u32::MAX);
                lemma_dec_val_prefix(s@.take(dlen as int), k as int + 1);
                assert(s@.take(dlen as int).take(k as int + 1) =~= s@.take(k as int + 1));
            }
            return Err(MemoryParseError::TooLarge);
        }
        val = val * 10 + d;
        k = k + 1;
    }
    proof {
        assert(s@.take(dlen as int).len() > 0);
    }
    Ok((val, unit))
}

} // verus!
