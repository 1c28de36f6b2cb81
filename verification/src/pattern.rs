//! Turns the text typed into the find box into a byte-sequence needle: the
//! ASCII hex digits of the pattern are read pairwise, high nibble first,
//! and every other character is skipped. A trailing unpaired digit becomes
//! the high nibble of a final byte.

use vstd::prelude::*;
use vstd::string::StrSliceExecFns;

verus! {

/// Whether `c` is an ASCII hex digit.
pub open spec fn is_hex_digit(c: char) -> bool {
    (('0' as u32) <= (c as u32) && (c as u32) <= ('9' as u32)) || (('a' as u32) <= (c as u32) && (
    c as u32) <= ('f' as u32)) || (('A' as u32) <= (c as u32) && (c as u32) <= ('F' as u32))
}

/// The value of the hex digit `c`.
pub open spec fn hex_digit_value(c: char) -> u8 {
    if ('0' as u32) <= (c as u32) && (c as u32) <= ('9' as u32) {
        ((c as u32) - ('0' as u32)) as u8
    } else if ('a' as u32) <= (c as u32) && (c as u32) <= ('f' as u32) {
        ((c as u32) - ('a' as u32) + 10) as u8
    } else {
        ((c as u32) - ('A' as u32) + 10) as u8
    }
}

/// The values of the hex digits of `s`, in order, other characters skipped.
pub open spec fn hex_digits(s: Seq<char>) -> Seq<u8>
    decreases s.len(),
{
    if s.len() == 0 {
        Seq::empty()
    } else {
        let rest = hex_digits(s.drop_last());
        if is_hex_digit(s.last()) {
            rest.push(hex_digit_value(s.last()))
        } else {
            rest
        }
    }
}

/// The digit values read pairwise into bytes, high nibble first; an
/// unpaired last digit stands alone as a high nibble.
pub open spec fn paired_bytes(digits: Seq<u8>) -> Seq<u8> {
    Seq::new(
        ((digits.len() + 1) / 2) as nat,
        |i: int|
            if 2 * i + 1 < digits.len() {
                (digits[2 * i] * 16 + digits[2 * i + 1]) as u8
            } else {
                (digits[2 * i] * 16) as u8
            },
    )
}

/// Every digit value `hex_digits` collects is below 16.
proof fn lemma_hex_digits_bounded(s: Seq<char>)
    ensures
        forall|k: int| 0 <= k < hex_digits(s).len() ==> hex_digits(s)[k] < 16,
    decreases s.len(),
{
    if s.len() > 0 {
        lemma_hex_digits_bounded(s.drop_last());
        let rest = hex_digits(s.drop_last());
        if is_hex_digit(s.last()) {
            let v = hex_digit_value(s.last());
            assert(v < 16);
            assert forall|k: int| 0 <= k < hex_digits(s).len() implies hex_digits(s)[k] < 16 by {
                if k < rest.len() {
                    assert(hex_digits(s)[k] == rest[k]);
                } else {
                    assert(hex_digits(s)[k] == v);
                }
            }
        }
    }
}

/// Classifies one typed character: the value of the hex digit, or `None`
/// for every other character.
pub fn hex_digit_of(c: char) -> (r: Option<u8>)
    ensures
        match r {
            Some(v) => is_hex_digit(c) && v == hex_digit_value(c) && v < 16,
            None => !is_hex_digit(c),
        },
{
    let u = c as u32;
    if 48 <= u && u <= 57 {
        Some((u - 48) as u8)
    } else if 97 <= u && u <= 102 {
        Some((u - 97 + 10) as u8)
    } else if 65 <= u && u <= 70 {
        Some((u - 65 + 10) as u8)
    } else {
        None
    }
}

/// Reads a typed search pattern into the needle handed to the search
/// functions: hex digits pairwise, everything else ignored.
pub fn get_pattern_needle(pattern: &str) -> (needle: Vec<u8>)
    ensures
        needle@ == paired_bytes(hex_digits(pattern@)),
{
    let mut res: Vec<u8> = Vec::new();
    let n: usize = pattern.unicode_len();
    let mut count: usize = 0;
    let mut i: usize = 0;
    while i < n
        invariant
            n == pattern@.len(),
            i <= n,
            count == hex_digits(pattern@.subrange(0, i as int)).len(),
            count <= i,
            res@ == paired_bytes(hex_digits(pattern@.subrange(0, i as int))),
        decreases n - i,
    {
        let ghost prefix = pattern@.subrange(0, i as int);
        let ghost extended = pattern@.subrange(0, i + 1);
        proof {
            assert(extended.drop_last() =~= prefix);
            lemma_hex_digits_bounded(prefix);
        }
        let c = pattern.get_char(i);
        match hex_digit_of(c) {
            Some(v) => {
                if count % 2 == 0 {
                    res.push(v * 16);
                    proof {
                        assert(res@ =~= paired_bytes(hex_digits(extended)));
                    }
                } else {
                    let high = match res.pop() {
                        Some(b) => b,
                        None => 0,
                    };
                    res.push(high + v);
                    proof {
                        assert(res@ =~= paired_bytes(hex_digits(extended)));
                    }
                }
                count = count + 1;
            },
            None => {
                proof {
                    assert(res@ =~= paired_bytes(hex_digits(extended)));
                }
            },
        }
        i = i + 1;
    }
    proof {
        assert(pattern@.subrange(0, n as int) =~= pattern@);
    }
    res
}

} // verus!
