//! Hexadecimal text.

use vstd::prelude::*;
use crate::pair::Pairable;
use crate::text::chars_of;

verus! {

/// The lower-case hexadecimal digit for a value below sixteen.
pub open spec fn hex_digit(n: int) -> char {
    if n < 10 {
        (('0' as int) + n) as char
    } else {
        (('a' as int) + n - 10) as char
    }
}

/// The hexadecimal text of a byte string: two lower-case digits for each
/// byte, the high half first.
pub open spec fn hex_text(bytes: Seq<u8>) -> Seq<char> {
    Seq::new(
        2 * bytes.len(),
        |i: int|
            if i % 2 == 0 {
                hex_digit(bytes[i / 2] as int / 16)
            } else {
                hex_digit(bytes[i / 2] as int % 16)
            },
    )
}

/// The value of a hexadecimal digit of either case, or `None` for any other
/// character.
pub open spec fn digit_value(c: char) -> Option<int> {
    let u = c as int;
    if '0' as int <= u <= '9' as int {
        Some(u - '0' as int)
    } else if 'a' as int <= u <= 'f' as int {
        Some(u - 'a' as int + 10)
    } else if 'A' as int <= u <= 'F' as int {
        Some(u - 'A' as int + 10)
    } else {
        None
    }
}

/// Every character that belongs to a pair is a hexadecimal digit. The last
/// character of a text of odd length belongs to no pair.
pub open spec fn pairs_are_hex(s: Seq<char>) -> bool {
    forall|i: int| 0 <= i < (s.len() / 2) * 2 ==> (#[trigger] digit_value(s[i])).is_some()
}

/// The bytes that the pairs of digits of a text stand for.
pub open spec fn hex_bytes(s: Seq<char>) -> Seq<u8> {
    Seq::new(
        s.len() / 2,
        |i: int| (16 * digit_value(s[2 * i]).unwrap() + digit_value(s[2 * i + 1]).unwrap()) as u8,
    )
}

/// What a text reads as, where it is hexadecimal throughout: every character
/// is a digit and they come in pairs.
pub open spec fn hex_decoding(s: Seq<char>) -> Option<Seq<u8>> {
    if pairs_are_hex(s) && s.len() % 2 == 0 {
        Some(hex_bytes(s))
    } else {
        None
    }
}

/// `String::push`: the character is added at the end of the text.
#[verifier::external_body]
fn push_char(s: &mut String, c: char)
    ensures
        final(s)@ == old(s)@.push(c),
{
    s.push(c)
}

fn digit_char(n: u8) -> (c: char)
    requires
        n < 16,
    ensures
        c == hex_digit(n as int),
{
    if n < 10 {
        (48 + n) as char
    } else {
        (87 + n) as char
    }
}

fn value_of(c: char) -> (r: Option<u8>)
    ensures
        r.is_some() == digit_value(c).is_some(),
        r.is_some() ==> r.unwrap() as int == digit_value(c).unwrap(),
        r.is_some() ==> r.unwrap() < 16,
{
    let u = c as u32;
    if 48 <= u && u <= 57 {
        Some((u - 48) as u8)
    } else if 97 <= u && u <= 102 {
        Some((u - 87) as u8)
    } else if 65 <= u && u <= 70 {
        Some((u - 55) as u8)
    } else {
        None
    }
}

/// Writes a byte string as hexadecimal text, in lower case.
pub fn to_hex(s: &[u8]) -> (r: String)
    ensures
        r@ == hex_text(s@),
{
    let mut out = String::new();
    let mut i: usize = 0;
    while i < s.len()
        invariant
            i <= s.len(),
            out@.len() == 2 * i,
            forall|k: int| 0 <= k < 2 * i ==> out@[k] == #[trigger] hex_text(s@)[k],
        decreases s.len() - i,
    {
        let b = s[i];
        push_char(&mut out, digit_char(b / 16));
        push_char(&mut out, digit_char(b % 16));
        i = i + 1;
    }
    assert(out@ =~= hex_text(s@));
    out
}

/// Reads hexadecimal text, two digits to a byte, in either case.
///
/// A character of a pair that is no hexadecimal digit is an error; otherwise
/// an odd number of characters is one. A text of odd length is read pair by
/// pair first, so a bad digit in a pair is reported before the odd length,
/// and the last character, which belongs to no pair, is never looked at.
pub fn from_hex(s: &str) -> (r: Result<Vec<u8>, &'static str>)
    ensures
        pairs_are_hex(s@) && s@.len() % 2 == 0 ==> r.is_ok() && r.unwrap()@ == hex_bytes(s@),
        !pairs_are_hex(s@) ==> r.is_err() && r.unwrap_err()@ == "unexpected hex digit"@,
        pairs_are_hex(s@) && s@.len() % 2 == 1 ==> r.is_err() && r.unwrap_err()@
            == "hexstring of odd length"@,
{
    let mut v: Vec<u8> = Vec::new();
    let mut iter = chars_of(s).pair();
    let ghost mut done: int = 0;
    loop
        invariant_except_break
            iter.rest() == s@.skip(2 * done),
            iter.leftover().is_none(),
        invariant
            0 <= done,
            2 * done <= s@.len(),
            v@.len() == done,
            forall|k: int| 0 <= k < 2 * done ==> (#[trigger] digit_value(s@[k])).is_some(),
            forall|k: int| 0 <= k < done ==> #[trigger] v@[k] == hex_bytes(s@)[k],
        ensures
            2 * done <= s@.len() < 2 * done + 2,
            iter.leftover().is_some() == (s@.len() % 2 == 1),
            v@.len() == done,
            pairs_are_hex(s@),
            forall|k: int| 0 <= k < done ==> #[trigger] v@[k] == hex_bytes(s@)[k],
        decreases s@.len() - 2 * done,
    {
        match iter.next() {
            None => {
                break ;
            },
            Some((f, t)) => {
                assert(f == s@[2 * done] && t == s@[2 * done + 1]);
                match (value_of(f), value_of(t)) {
                    (Some(hi), Some(lo)) => {
                        v.push(hi * 16 + lo);
                        proof {
                            assert(iter.rest() =~= s@.skip(2 * (done + 1)));
                            done = done + 1;
                        }
                    },
                    _ => {
                        assert(!pairs_are_hex(s@)) by {
                            if pairs_are_hex(s@) {
                                assert(digit_value(s@[2 * done]).is_some());
                                assert(digit_value(s@[2 * done + 1]).is_some());
                            }
                        }
                        return Err("unexpected hex digit");
                    },
                }
            },
        }
    }
    match iter.remainder() {
        Some(_) => Err("hexstring of odd length"),
        None => {
            assert(v@ =~= hex_bytes(s@));
            Ok(v)
        },
    }
}

/// Reading back the hexadecimal text of a byte string gives the byte
/// string: what [`to_hex`] writes, [`from_hex`] reads.
pub proof fn lemma_hex_round_trip(bytes: Seq<u8>)
    ensures
        hex_text(bytes).len() == 2 * bytes.len(),
        hex_decoding(hex_text(bytes)) == Some(bytes),
{
    let t = hex_text(bytes);
    assert forall|n: int| 0 <= n < 16 implies #[trigger] digit_value(hex_digit(n)) == Some(n) by {
        if n < 10 {
            assert(hex_digit(n) as int == ('0' as int) + n);
        } else {
            assert(hex_digit(n) as int == ('a' as int) + n - 10);
        }
    }
    assert forall|i: int| 0 <= i < t.len() implies (#[trigger] digit_value(t[i])).is_some() by {
        let b = bytes[i / 2] as int;
        if i % 2 == 0 {
            assert(digit_value(hex_digit(b / 16)) == Some(b / 16));
        } else {
            assert(digit_value(hex_digit(b % 16)) == Some(b % 16));
        }
    }
    assert(pairs_are_hex(t));
    assert forall|k: int| 0 <= k < bytes.len() implies #[trigger] hex_bytes(t)[k] == bytes[k] by {
        let b = bytes[k] as int;
        assert(t[2 * k] == hex_digit(b / 16));
        assert(t[2 * k + 1] == hex_digit(b % 16));
        assert(digit_value(hex_digit(b / 16)) == Some(b / 16));
        assert(digit_value(hex_digit(b % 16)) == Some(b % 16));
    }
    assert(hex_bytes(t) =~= bytes);
}

} // verus!
