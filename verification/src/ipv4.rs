//! IPv4 addresses in dot-decimal notation: four decimal numerals without
//! leading zeros, each at most 255, separated by dots, and nothing else.

use crate::numeral::decimal;
use crate::numeral::digits_value;
use crate::numeral::is_digit;
use crate::numeral::lemma_decimal;
use crate::numeral::push_decimal;
use vstd::prelude::*;
use vstd::string::*;
use vstd::utf8::*;

verus! {

/// The byte of the character `0`.
const ZERO: u8 = 48;

/// The byte of the character `9`.
const NINE: u8 = 57;

/// The byte of the character `.`.
const DOT: u8 = 46;

/// The dot-decimal notation of the address with these four octets.
pub open spec fn dot_decimal(octets: Seq<u8>) -> Seq<char>
    recommends
        octets.len() == 4,
{
    decimal(octets[0] as nat) + seq!['.'] + decimal(octets[1] as nat) + seq!['.'] + decimal(
        octets[2] as nat,
    ) + seq!['.'] + decimal(octets[3] as nat)
}

/// Whether `address` is what `text` denotes: the address that `text` is the
/// notation of, or none where `text` is the notation of no address.
pub open spec fn denotes(text: Seq<char>, address: Option<[u8; 4]>) -> bool {
    match address {
        Some(octets) => text == dot_decimal(octets@),
        None => forall|octets: Seq<u8>|
            octets.len() == 4 ==> text != #[trigger] dot_decimal(octets),
    }
}

/// The numeral of `x` stands in `s` at `pos` and no digit follows it.
spec fn numeral_at(s: Seq<char>, pos: int, x: nat) -> bool {
    let end = pos + decimal(x).len();
    &&& 0 <= pos
    &&& end <= s.len()
    &&& s.subrange(pos, end) == decimal(x)
    &&& (end == s.len() || !is_digit(s[end]))
}

/// `bytes` holds the characters of `s`, one byte for each.
spec fn spelled(bytes: Seq<u8>, s: Seq<char>) -> bool {
    &&& bytes.len() == s.len()
    &&& forall|i: int| 0 <= i < s.len() ==> #[trigger] bytes[i] as u32 == s[i] as u32
}

/// Where the numerals and the dots stand in the notation of an address.
proof fn lemma_layout(octets: Seq<u8>)
    requires
        octets.len() == 4,
    ensures
        ({
            let s = dot_decimal(octets);
            let l0 = decimal(octets[0] as nat).len() as int;
            let l1 = decimal(octets[1] as nat).len() as int;
            let l2 = decimal(octets[2] as nat).len() as int;
            let l3 = decimal(octets[3] as nat).len() as int;
            &&& s.len() == l0 + l1 + l2 + l3 + 3
            &&& numeral_at(s, 0, octets[0] as nat)
            &&& s[l0] == '.'
            &&& numeral_at(s, l0 + 1, octets[1] as nat)
            &&& s[l0 + l1 + 1] == '.'
            &&& numeral_at(s, l0 + l1 + 2, octets[2] as nat)
            &&& s[l0 + l1 + l2 + 2] == '.'
            &&& numeral_at(s, l0 + l1 + l2 + 3, octets[3] as nat)
            &&& is_ascii_chars(s)
        }),
{
    let s = dot_decimal(octets);
    let d0 = decimal(octets[0] as nat);
    let d1 = decimal(octets[1] as nat);
    let d2 = decimal(octets[2] as nat);
    let d3 = decimal(octets[3] as nat);
    let l0 = d0.len() as int;
    let l1 = d1.len() as int;
    let l2 = d2.len() as int;
    let l3 = d3.len() as int;
    lemma_decimal(octets[0] as nat);
    lemma_decimal(octets[1] as nat);
    lemma_decimal(octets[2] as nat);
    lemma_decimal(octets[3] as nat);
    assert(s.subrange(0, l0) =~= d0);
    assert(s.subrange(l0 + 1, l0 + 1 + l1) =~= d1);
    assert(s.subrange(l0 + l1 + 2, l0 + l1 + 2 + l2) =~= d2);
    assert(s.subrange(l0 + l1 + l2 + 3, l0 + l1 + l2 + 3 + l3) =~= d3);
    assert forall|i: int| 0 <= i < s.len() implies '\0' <= #[trigger] s[i] <= '\u{7f}' by {
        lemma_low_is_ascii(s[i]);
    }
}

/// A character below 128 is an ASCII character.
proof fn lemma_low_is_ascii(c: char)
    requires
        c as u32 <= 127,
    ensures
        '\0' <= c <= '\u{7f}',
{
}

/// Reads up to three digits from `start` on. Where the numeral of an octet
/// stands at `start`, that octet and the position behind its numeral are
/// returned; where nothing is returned, no such numeral stands there.
fn scan_octet(bytes: &[u8], start: usize, Ghost(s): Ghost<Seq<char>>) -> (found: Option<
    (u8, usize),
>)
    requires
        spelled(bytes@, s),
        start <= bytes@.len(),
    ensures
        match found {
            Some((octet, end)) => {
                &&& start < end <= bytes@.len()
                &&& forall|x: nat|
                    x <= 255 && #[trigger] numeral_at(s, start as int, x) ==> x == octet && end
                        == start + decimal(x).len()
            },
            None => forall|x: nat| x <= 255 ==> !#[trigger] numeral_at(s, start as int, x),
        },
{
    let mut end: usize = start;
    let mut value: u16 = 0;
    while end < bytes.len() && end - start < 3 && ZERO <= bytes[end] && bytes[end] <= NINE
        invariant
            spelled(bytes@, s),
            start <= end <= bytes@.len(),
            end - start <= 3,
            forall|i: int| start <= i < end ==> is_digit(#[trigger] s[i]),
            value == digits_value(s.subrange(start as int, end as int)),
            end - start == 0 ==> value == 0,
            end - start == 1 ==> value < 10,
            end - start == 2 ==> value < 100,
            end - start == 3 ==> value < 1000,
        decreases bytes@.len() - end,
    {
        proof {
            let longer = s.subrange(start as int, end + 1);
            assert(longer.drop_last() =~= s.subrange(start as int, end as int));
        }
        value = value * 10 + (bytes[end] - ZERO) as u16;
        end += 1;
    }
    assert forall|x: nat| x <= 255 && #[trigger] numeral_at(s, start as int, x) implies end
        == start + decimal(x).len() && x == value by {
        lemma_decimal(x);
        let numeral = decimal(x);
        let behind = start + numeral.len();
        assert forall|i: int| start <= i < behind implies is_digit(#[trigger] s[i]) by {
            assert(is_digit(numeral[i - start]));
        }
    }
    if end == start || value > 255 {
        None
    } else {
        Some((value as u8, end))
    }
}

/// Reads an address in dot-decimal notation.
///
/// Returns the four octets where `text` is the notation of an address, most
/// significant octet first, and nothing otherwise: not for a numeral above
/// 255 or with a leading zero, nor for a missing or additional part, a sign or
/// a blank.
pub fn parse(text: &str) -> (address: Option<[u8; 4]>)
    ensures
        denotes(text@, address),
{
    if !text.is_ascii() {
        assert forall|octets: Seq<u8>| octets.len() == 4 implies text@ != #[trigger] dot_decimal(
            octets,
        ) by {
            lemma_layout(octets);
        }
        return None;
    }
    let bytes = text.as_bytes();
    let ghost s = text@;
    proof {
        is_ascii_spec_bytes(text);
    }
    let mut octets: [u8; 4] = [0, 0, 0, 0];
    let mut pos: usize = 0;
    let mut part: usize = 0;
    while part < 4
        invariant
            spelled(bytes@, s),
            s == text@,
            part <= 4,
            pos <= bytes@.len(),
            forall|other: Seq<u8>|
                other.len() == 4 && s == #[trigger] dot_decimal(other) ==> follows(
                    other,
                    part as int,
                    octets@,
                    pos as int,
                ),
        decreases 4 - part,
    {
        if part > 0 {
            if pos >= bytes.len() || bytes[pos] != DOT {
                assert forall|other: Seq<u8>| other.len() == 4 implies s != #[trigger] dot_decimal(
                    other,
                ) by {
                    lemma_layout(other);
                }
                return None;
            }
            pos += 1;
        }
        match scan_octet(bytes, pos, Ghost(s)) {
            None => {
                assert forall|other: Seq<u8>| other.len() == 4 implies s != #[trigger] dot_decimal(
                    other,
                ) by {
                    lemma_layout(other);
                }
                return None;
            },
            Some((octet, end)) => {
                proof {
                    assert forall|other: Seq<u8>|
                        other.len() == 4 && s == #[trigger] dot_decimal(other) implies follows(
                        other,
                        part + 1,
                        octets@.update(part as int, octet),
                        end as int,
                    ) by {
                        lemma_layout(other);
                    }
                }
                octets[part] = octet;
                pos = end;
            },
        }
        part += 1;
    }
    if pos != bytes.len() {
        assert forall|other: Seq<u8>| other.len() == 4 implies s != #[trigger] dot_decimal(
            other,
        ) by {
            lemma_layout(other);
        }
        return None;
    }
    let mut rendered = String::new();
    push_decimal(&mut rendered, octets[0] as u16);
    rendered.append(".");
    push_decimal(&mut rendered, octets[1] as u16);
    rendered.append(".");
    push_decimal(&mut rendered, octets[2] as u16);
    rendered.append(".");
    push_decimal(&mut rendered, octets[3] as u16);
    proof {
        reveal_strlit(".");
        assert(rendered@ =~= dot_decimal(octets@));
    }
    if rendered == String::from_str(text) {
        Some(octets)
    } else {
        assert forall|other: Seq<u8>| other.len() == 4 implies s != #[trigger] dot_decimal(
            other,
        ) by {
            if s == dot_decimal(other) {
                assert(octets@ =~= other);
            }
        }
        None
    }
}

/// After `parts` numerals of the notation of `address` were read, `octets`
/// holds those parts of the address and `pos` is the position behind the last
/// of them.
spec fn follows(address: Seq<u8>, parts: int, octets: Seq<u8>, pos: int) -> bool {
    let l0 = decimal(address[0] as nat).len() as int;
    let l1 = decimal(address[1] as nat).len() as int;
    let l2 = decimal(address[2] as nat).len() as int;
    let l3 = decimal(address[3] as nat).len() as int;
    &&& octets.len() == 4
    &&& parts >= 1 ==> octets[0] == address[0]
    &&& parts >= 2 ==> octets[1] == address[1]
    &&& parts >= 3 ==> octets[2] == address[2]
    &&& parts >= 4 ==> octets[3] == address[3]
    &&& parts == 0 ==> pos == 0
    &&& parts == 1 ==> pos == l0
    &&& parts == 2 ==> pos == l0 + l1 + 1
    &&& parts == 3 ==> pos == l0 + l1 + l2 + 2
    &&& parts == 4 ==> pos == l0 + l1 + l2 + l3 + 3
}

/// An address has one notation only: two addresses with the same notation are
/// the same address.
pub proof fn lemma_notation_is_unique(one: Seq<u8>, other: Seq<u8>)
    requires
        one.len() == 4,
        other.len() == 4,
        dot_decimal(one) == dot_decimal(other),
    ensures
        one == other,
{
    let s = dot_decimal(one);
    lemma_layout(one);
    lemma_layout(other);
    lemma_numeral_is_unique(s, 0, one[0] as nat, other[0] as nat);
    let l0 = decimal(one[0] as nat).len() as int;
    lemma_numeral_is_unique(s, l0 + 1, one[1] as nat, other[1] as nat);
    let l1 = decimal(one[1] as nat).len() as int;
    lemma_numeral_is_unique(s, l0 + l1 + 2, one[2] as nat, other[2] as nat);
    let l2 = decimal(one[2] as nat).len() as int;
    lemma_numeral_is_unique(s, l0 + l1 + l2 + 3, one[3] as nat, other[3] as nat);
}

/// At one position stands the numeral of one number at most.
proof fn lemma_numeral_is_unique(s: Seq<char>, pos: int, x: nat, y: nat)
    requires
        numeral_at(s, pos, x),
        numeral_at(s, pos, y),
    ensures
        x == y,
{
    lemma_decimal(x);
    lemma_decimal(y);
    let behind_x = pos + decimal(x).len();
    let behind_y = pos + decimal(y).len();
    if behind_x < behind_y {
        assert(is_digit(decimal(y)[behind_x - pos]));
    }
    if behind_y < behind_x {
        assert(is_digit(decimal(x)[behind_y - pos]));
    }
}

} // verus!
