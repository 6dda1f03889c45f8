//! Lower-case hexadecimal text for byte strings.
//!
//! Each byte becomes two digits, the high half first. Only the digits `0` to
//! `9` and `a` to `f` are read back, so that a byte string has one text.

use vstd::prelude::*;

verus! {

/// The digit that stands for a number below sixteen.
pub open spec fn digit_of(nibble: u8) -> u8 {
    if nibble < 10 {
        (48 + nibble) as u8
    } else {
        (87 + nibble) as u8
    }
}

/// The number that a digit stands for, if it is a digit.
pub open spec fn value_of(digit: u8) -> Option<u8> {
    if 48 <= digit <= 57 {
        Some((digit - 48) as u8)
    } else if 97 <= digit <= 102 {
        Some((digit - 87) as u8)
    } else {
        None
    }
}

/// Whether a text is made of pairs of digits.
pub open spec fn is_hex(text: Seq<u8>) -> bool {
    text.len() % 2 == 0 && forall|i: int| 0 <= i < text.len() ==> value_of(#[trigger] text[i]) is Some
}

/// The hexadecimal text of a byte string.
pub open spec fn encoded(bytes: Seq<u8>) -> Seq<u8> {
    Seq::new(
        2 * bytes.len(),
        |i: int|
            if i % 2 == 0 {
                digit_of(bytes[i / 2] / 16)
            } else {
                digit_of(bytes[i / 2] % 16)
            },
    )
}

/// The byte string that a hexadecimal text stands for, if it is one.
pub open spec fn decoded(text: Seq<u8>) -> Option<Seq<u8>> {
    if is_hex(text) {
        Some(
            Seq::new(
                text.len() / 2,
                |i: int|
                    (value_of(text[2 * i]).unwrap() * 16 + value_of(text[2 * i + 1]).unwrap()) as u8,
            ),
        )
    } else {
        None
    }
}

/// Reading back the text of a byte string gives the byte string.
pub proof fn lemma_decode_encoded(bytes: Seq<u8>)
    ensures
        decoded(encoded(bytes)) == Some(bytes),
{
    let text = encoded(bytes);
    assert forall|i: int| 0 <= i < text.len() implies value_of(#[trigger] text[i]) is Some by {
        let byte = bytes[i / 2];
        assert(byte / 16 < 16 && byte % 16 < 16);
    }
    assert(is_hex(text));
    let back = decoded(text).unwrap();
    assert(back.len() == bytes.len());
    assert forall|i: int| 0 <= i < bytes.len() implies back[i] == bytes[i] by {
        let byte = bytes[i];
        assert(text[2 * i] == digit_of(byte / 16));
        assert(text[2 * i + 1] == digit_of(byte % 16));
        assert(byte / 16 < 16 && byte % 16 < 16);
        assert(value_of(digit_of(byte / 16)) == Some((byte / 16) as u8));
        assert(value_of(digit_of(byte % 16)) == Some((byte % 16) as u8));
        assert((byte / 16) * 16 + byte % 16 == byte);
    }
    assert(back =~= bytes);
}

/// Writing out what a hexadecimal text stands for gives the text.
pub proof fn lemma_encode_decoded(text: Seq<u8>)
    requires
        is_hex(text),
    ensures
        encoded(decoded(text).unwrap()) == text,
{
    let bytes = decoded(text).unwrap();
    let again = encoded(bytes);
    assert(again.len() == text.len());
    assert forall|i: int| 0 <= i < text.len() implies again[i] == text[i] by {
        let k = i / 2;
        let high = value_of(text[2 * k]).unwrap();
        let low = value_of(text[2 * k + 1]).unwrap();
        assert(high < 16 && low < 16);
        assert(bytes[k] == (high * 16 + low) as u8);
        assert((high * 16 + low) / 16 == high);
        assert((high * 16 + low) % 16 == low);
        assert(digit_of(high) == text[2 * k]);
        assert(digit_of(low) == text[2 * k + 1]);
    }
    assert(again =~= text);
}

fn digit(nibble: u8) -> (out: u8)
    requires
        nibble < 16,
    ensures
        out == digit_of(nibble),
{
    if nibble < 10 {
        48 + nibble
    } else {
        87 + nibble
    }
}

fn value(digit: u8) -> (out: Option<u8>)
    ensures
        out == value_of(digit),
        out matches Some(nibble) ==> nibble < 16,
{
    if 48 <= digit && digit <= 57 {
        Some(digit - 48)
    } else if 97 <= digit && digit <= 102 {
        Some(digit - 87)
    } else {
        None
    }
}

/// Writes a byte string as hexadecimal text.
pub fn encode(bytes: &Vec<u8>) -> (out: Vec<u8>)
    ensures
        out@ == encoded(bytes@),
{
    let mut out: Vec<u8> = Vec::new();
    let mut i: usize = 0;
    while i < bytes.len()
        invariant
            i <= bytes@.len(),
            out@.len() == 2 * i,
            forall|j: int| 0 <= j < out@.len() ==> out@[j] == encoded(bytes@)[j],
        decreases bytes@.len() - i,
    {
        let byte: u8 = bytes[i];
        out.push(digit(byte / 16));
        out.push(digit(byte % 16));
        i += 1;
    }
    assert(out@ =~= encoded(bytes@));
    out
}

/// Reads hexadecimal text back into a byte string, or gives `None` for a text
/// of odd length or with anything but digits in it.
pub fn decode(text: &Vec<u8>) -> (out: Option<Vec<u8>>)
    ensures
        match out {
            Some(bytes) => decoded(text@) == Some(bytes@),
            None => decoded(text@) is None,
        },
{
    if text.len() % 2 != 0 {
        return None;
    }
    let count: usize = text.len() / 2;
    let mut out: Vec<u8> = Vec::new();
    let mut i: usize = 0;
    while i < count
        invariant
            i <= count,
            count * 2 == text@.len() <= usize::MAX,
            out@.len() == i,
            forall|j: int| 0 <= j < 2 * i ==> value_of(#[trigger] text@[j]) is Some,
            forall|j: int|
                0 <= j < i ==> out@[j] == (value_of(text@[2 * j]).unwrap() * 16 + value_of(
                    text@[2 * j + 1],
                ).unwrap()) as u8,
        decreases count - i,
    {
        let high = value(text[2 * i]);
        let low = value(text[2 * i + 1]);
        match (high, low) {
            (Some(h), Some(l)) => {
                out.push(h * 16 + l);
            },
            _ => {
                assert(!is_hex(text@));
                return None;
            },
        }
        assert forall|j: int| 0 <= j < 2 * (i + 1) implies value_of(#[trigger] text@[j]) is Some by {
            if j >= 2 * i {
                assert(j == 2 * i || j == 2 * i + 1);
            }
        }
        i += 1;
    }
    assert(is_hex(text@));
    assert(out@ =~= decoded(text@).unwrap());
    Some(out)
}

} // verus!
