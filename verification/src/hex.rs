//! Bytes as pairs of hexadecimal digits.

use vstd::prelude::*;
use vstd::string::*;

verus! {

/// What keeps a text from being read as pairs of hexadecimal digits.
#[derive(Clone, Copy, Debug, PartialEq, Eq, Structural)]
pub enum HexError {
    /// Two bytes of the text that should be a pair are no number in base sixteen.
    NotHex,
    /// The text cannot be cut after every second byte: its last byte stands
    /// alone, or a cut would fall inside a character.
    Misaligned,
}

/// The digit for `n`, which is below sixteen.
pub open spec fn hex_digit(n: int) -> char {
    if n < 10 {
        (0x30 + n) as char
    } else {
        (0x61 + n - 10) as char
    }
}

/// The number that a digit stands for, in either case of its letter.
pub open spec fn digit_value(c: char) -> Option<int> {
    let u = c as int;
    if 0x30 <= u <= 0x39 {
        Some(u - 0x30)
    } else if 0x61 <= u <= 0x66 {
        Some(u - 0x61 + 10)
    } else if 0x41 <= u <= 0x46 {
        Some(u - 0x41 + 10)
    } else {
        None
    }
}

/// The number that two characters stand for: two digits, or a plus sign and
/// one digit.
pub open spec fn pair_value(a: char, b: char) -> Option<int> {
    match (digit_value(a), digit_value(b)) {
        (Some(hi), Some(lo)) => Some(16 * hi + lo),
        (None, Some(lo)) => if a == '+' {
            Some(lo)
        } else {
            None
        },
        _ => None,
    }
}

/// How many bytes `c` takes in UTF-8.
pub open spec fn utf8_width(c: char) -> int {
    let u = c as int;
    if u < 0x80 {
        1
    } else if u < 0x800 {
        2
    } else if u < 0x10000 {
        3
    } else {
        4
    }
}

/// What is read when `head` was read before `tail`.
pub open spec fn after(head: Seq<u8>, tail: Result<Seq<u8>, HexError>) -> Result<
    Seq<u8>,
    HexError,
> {
    match tail {
        Ok(bytes) => Ok(head + bytes),
        Err(e) => Err(e),
    }
}

/// The bytes that `s` holds, cut after every second byte of its UTF-8 form and
/// read from the front up to the first fault.
pub open spec fn hex_pairs(s: Seq<char>) -> Result<Seq<u8>, HexError>
    decreases s.len(),
{
    if s.len() == 0 {
        Ok(Seq::empty())
    } else if utf8_width(s[0]) == 2 {
        Err(HexError::NotHex)
    } else if utf8_width(s[0]) > 2 || s.len() == 1 || utf8_width(s[1]) > 1 {
        Err(HexError::Misaligned)
    } else {
        match pair_value(s[0], s[1]) {
            Some(n) => after(seq![n as u8], hex_pairs(s.skip(2))),
            None => Err(HexError::NotHex),
        }
    }
}

/// `bytes` in hexadecimal: two digits for each byte, letters in lower case.
pub open spec fn hex_lower(bytes: Seq<u8>) -> Seq<char> {
    Seq::new(
        2 * bytes.len(),
        |i: int|
            hex_digit(
                if i % 2 == 0 {
                    bytes[i / 2] as int / 16
                } else {
                    bytes[i / 2] as int % 16
                },
            ),
    )
}

/// Whether `c` is a digit or a letter from a to f in lower case.
pub open spec fn is_lower_hex(c: char) -> bool {
    0x30 <= c as int <= 0x39 || 0x61 <= c as int <= 0x66
}

/// The text of any bytes is twice as long as they are, and made of digits and
/// lower case letters alone.
pub proof fn law_hex_lower_form(bytes: Seq<u8>)
    ensures
        hex_lower(bytes).len() == 2 * bytes.len(),
        forall|i: int|
            0 <= i < hex_lower(bytes).len() ==> is_lower_hex(#[trigger] hex_lower(bytes)[i]),
{
}

/// Reading the text of any bytes gives those bytes back.
pub proof fn law_hex_round_trip(bytes: Seq<u8>)
    ensures
        hex_pairs(hex_lower(bytes)) == Ok::<Seq<u8>, HexError>(bytes),
    decreases bytes.len(),
{
    let s = hex_lower(bytes);
    if bytes.len() == 0 {
        assert(bytes =~= Seq::empty());
    } else {
        let tail = bytes.skip(1);
        law_hex_round_trip(tail);
        assert(s.skip(2) =~= hex_lower(tail)) by {
            assert forall|i: int| 0 <= i < 2 * tail.len() implies #[trigger] s.skip(2)[i]
                == hex_lower(tail)[i] by {
                assert((i + 2) / 2 == i / 2 + 1 && (i + 2) % 2 == i % 2);
                assert(bytes[i / 2 + 1] == tail[i / 2]);
            }
        }
        assert(s[0] == hex_digit(bytes[0] as int / 16));
        assert(s[1] == hex_digit(bytes[0] as int % 16));
        assert(seq![bytes[0]] + tail =~= bytes);
    }
}

/// The digit for `n`.
pub fn digit(n: u8) -> (r: &'static str)
    requires
        n < 16,
    ensures
        r@ == seq![hex_digit(n as int)],
{
    proof {
        reveal_strlit("0");
        reveal_strlit("1");
        reveal_strlit("2");
        reveal_strlit("3");
        reveal_strlit("4");
        reveal_strlit("5");
        reveal_strlit("6");
        reveal_strlit("7");
        reveal_strlit("8");
        reveal_strlit("9");
        reveal_strlit("a");
        reveal_strlit("b");
        reveal_strlit("c");
        reveal_strlit("d");
        reveal_strlit("e");
        reveal_strlit("f");
    }
    match n {
        0 => "0",
        1 => "1",
        2 => "2",
        3 => "3",
        4 => "4",
        5 => "5",
        6 => "6",
        7 => "7",
        8 => "8",
        9 => "9",
        10 => "a",
        11 => "b",
        12 => "c",
        13 => "d",
        14 => "e",
        _ => "f",
    }
}

/// `bytes` in hexadecimal, letters in lower case.
pub fn to_hex_lower(bytes: &[u8]) -> (r: String)
    ensures
        r@ == hex_lower(bytes@),
{
    let mut out = String::new();
    let mut i: usize = 0;
    while i < bytes.len()
        invariant
            i <= bytes@.len(),
            out@ == hex_lower(bytes@.take(i as int)),
        decreases bytes@.len() - i,
    {
        let b: u8 = bytes[i];
        out.append(digit(b / 16));
        out.append(digit(b % 16));
        i = i + 1;
        assert(out@ =~= hex_lower(bytes@.take(i as int)));
    }
    assert(bytes@.take(i as int) =~= bytes@);
    out
}

/// How many bytes `c` takes in UTF-8.
fn width_of(c: char) -> (r: u8)
    ensures
        r == utf8_width(c),
{
    let u: u32 = c as u32;
    if u < 0x80 {
        1
    } else if u < 0x800 {
        2
    } else if u < 0x10000 {
        3
    } else {
        4
    }
}

/// The number that a digit stands for.
fn value_of_digit(c: char) -> (r: Option<u8>)
    ensures
        match r {
            Some(n) => digit_value(c) == Some(n as int),
            None => digit_value(c) is None,
        },
{
    let u: u32 = c as u32;
    if 0x30 <= u && u <= 0x39 {
        Some((u - 0x30) as u8)
    } else if 0x61 <= u && u <= 0x66 {
        Some((u - 0x61 + 10) as u8)
    } else if 0x41 <= u && u <= 0x46 {
        Some((u - 0x41 + 10) as u8)
    } else {
        None
    }
}

/// The number that two characters stand for.
fn value_of_pair(a: char, b: char) -> (r: Option<u8>)
    ensures
        match r {
            Some(n) => pair_value(a, b) == Some(n as int),
            None => pair_value(a, b) is None,
        },
{
    let low = match value_of_digit(b) {
        Some(n) => n,
        None => {
            return None;
        },
    };
    match value_of_digit(a) {
        Some(high) => Some(16 * high + low),
        None => if a == '+' {
            Some(low)
        } else {
            None
        },
    }
}

/// The bytes that `chars` hold in pairs of hexadecimal digits.
pub fn read_hex_pairs(chars: &Vec<char>) -> (r: Result<Vec<u8>, HexError>)
    ensures
        match r {
            Ok(bytes) => hex_pairs(chars@) == Ok::<Seq<u8>, HexError>(bytes@),
            Err(e) => hex_pairs(chars@) == Err::<Seq<u8>, HexError>(e),
        },
{
    let mut out: Vec<u8> = Vec::new();
    let mut i: usize = 0;
    assert(chars@.skip(0) =~= chars@);
    assert(after(out@, hex_pairs(chars@)) == hex_pairs(chars@)) by {
        if let Ok(bytes) = hex_pairs(chars@) {
            assert(out@ + bytes =~= bytes);
        }
    }
    while i < chars.len()
        invariant
            i <= chars@.len(),
            hex_pairs(chars@) == after(out@, hex_pairs(chars@.skip(i as int))),
        decreases chars@.len() - i,
    {
        let ghost rest = chars@.skip(i as int);
        let width: u8 = width_of(chars[i]);
        if width == 2 {
            return Err(HexError::NotHex);
        }
        if width > 2 || chars.len() - i == 1 || width_of(chars[i + 1]) > 1 {
            return Err(HexError::Misaligned);
        }
        match value_of_pair(chars[i], chars[i + 1]) {
            Some(n) => {
                let ghost before = out@;
                out.push(n);
                assert(rest.skip(2) =~= chars@.skip(i + 2));
                proof {
                    if let Ok(bytes) = hex_pairs(rest.skip(2)) {
                        assert(before + (seq![n] + bytes) =~= out@ + bytes);
                    }
                }
                i = i + 2;
            },
            None => {
                return Err(HexError::NotHex);
            },
        }
    }
    assert(out@ + Seq::<u8>::empty() =~= out@);
    Ok(out)
}

/// The value of a digit in base sixteen.
pub open spec fn sixteenth(c: char) -> int {
    if '0' <= c <= '9' {
        c as int - '0' as int
    } else if 'a' <= c <= 'f' {
        10 + (c as int - 'a' as int)
    } else {
        10 + (c as int - 'A' as int)
    }
}

/// Whether `c` is a digit in base sixteen, in either case of its letter.
pub open spec fn is_sixteenth(c: char) -> bool {
    '0' <= c <= '9' || 'a' <= c <= 'f' || 'A' <= c <= 'F'
}

/// The number that `text` writes in base sixteen.
pub open spec fn hex_number(text: Seq<char>) -> int
    decreases text.len(),
{
    if text.len() == 0 {
        0
    } else {
        16 * hex_number(text.drop_last()) + sixteenth(text.last())
    }
}

/// Whether the pair at `k` of `s` is two digits, or a plus sign and a digit.
pub open spec fn pair_reads(s: Seq<char>, k: int) -> bool {
    (is_sixteenth(s[2 * k]) || s[2 * k] == '+') && is_sixteenth(s[2 * k + 1])
}

/// A text is read as bytes if and only if its length is even and every pair
/// of it is a number in base sixteen. There are as many bytes as pairs, in the
/// same order, each with the number that its pair writes.
pub proof fn law_hex_pairs_meaning(s: Seq<char>)
    ensures
        hex_pairs(s) is Ok <==> s.len() % 2 == 0 && (forall|k: int|
            0 <= k < s.len() / 2 ==> #[trigger] pair_reads(s, k)),
        hex_pairs(s) matches Ok(bytes) ==> {
            &&& 2 * bytes.len() == s.len()
            &&& forall|k: int|
                0 <= k < bytes.len() ==> #[trigger] bytes[k] == (if s[2 * k] == '+' {
                    0
                } else {
                    16 * sixteenth(s[2 * k])
                }) + sixteenth(s[2 * k + 1])
        },
    decreases s.len(),
{
    let all = s.len() % 2 == 0 && (forall|k: int|
        0 <= k < s.len() / 2 ==> #[trigger] pair_reads(s, k));
    if s.len() > 0 {
        if s.len() >= 2 {
            let t = s.skip(2);
            law_hex_pairs_meaning(t);
            assert forall|k: int| 0 <= k < t.len() / 2 implies #[trigger] pair_reads(t, k)
                == pair_reads(s, k + 1) by {
                assert(t[2 * k] == s[2 * (k + 1)]);
                assert(t[2 * k + 1] == s[2 * (k + 1) + 1]);
            }
            if all {
                assert(pair_reads(s, 0));
                assert forall|k: int| 0 <= k < t.len() / 2 implies #[trigger] pair_reads(t, k) by {
                    assert(pair_reads(s, k + 1));
                }
            }
            if let Ok(bytes) = hex_pairs(s) {
                let rest = hex_pairs(t)->Ok_0;
                assert(bytes =~= seq![pair_value(s[0], s[1])->0 as u8] + rest);
                assert forall|k: int| 0 <= k < s.len() / 2 implies #[trigger] pair_reads(s, k) by {
                    if k > 0 {
                        assert(pair_reads(t, k - 1));
                    }
                }
                assert forall|k: int| 0 <= k < bytes.len() implies #[trigger] bytes[k] == (if s[2
                    * k] == '+' {
                    0
                } else {
                    16 * sixteenth(s[2 * k])
                }) + sixteenth(s[2 * k + 1]) by {
                    if k > 0 {
                        assert(bytes[k] == rest[k - 1]);
                        assert(t[2 * (k - 1)] == s[2 * k]);
                        assert(t[2 * (k - 1) + 1] == s[2 * k + 1]);
                    }
                }
            }
        }
    }
}

proof fn lemma_number_of_pairs(s: Seq<char>, bytes: Seq<u8>)
    requires
        2 * bytes.len() == s.len(),
        forall|k: int|
            0 <= k < bytes.len() ==> #[trigger] bytes[k] == 16 * sixteenth(s[2 * k]) + sixteenth(
                s[2 * k + 1],
            ),
    ensures
        hex_number(s) == crate::key::big_endian(bytes),
    decreases bytes.len(),
{
    if bytes.len() > 0 {
        let t = s.drop_last().drop_last();
        let front = bytes.drop_last();
        let k = bytes.len() - 1;
        assert forall|k: int| 0 <= k < front.len() implies #[trigger] front[k] == 16 * sixteenth(
            t[2 * k],
        ) + sixteenth(t[2 * k + 1]) by {
            assert(front[k] == bytes[k]);
        }
        lemma_number_of_pairs(t, front);
        assert(s.drop_last().last() == s[2 * k]);
        assert(s.last() == s[2 * k + 1]);
        assert(bytes[k] == bytes.last());
        assert(hex_number(s.drop_last()) == 16 * hex_number(t) + sixteenth(s[2 * k]));
    }
}

/// The text of bytes writes in base sixteen the number that the bytes write in
/// base 256.
pub proof fn law_hex_keeps_the_number(bytes: Seq<u8>)
    ensures
        hex_number(hex_lower(bytes)) == crate::key::big_endian(bytes),
{
    let s = hex_lower(bytes);
    assert forall|k: int| 0 <= k < bytes.len() implies #[trigger] bytes[k] == 16 * sixteenth(
        s[2 * k],
    ) + sixteenth(s[2 * k + 1]) by {
        assert((2 * k) / 2 == k && (2 * k) % 2 == 0);
        assert((2 * k + 1) / 2 == k && (2 * k + 1) % 2 == 1);
    }
    lemma_number_of_pairs(s, bytes);
}

/// Bytes read from text without a plus sign write the number that the text
/// writes, whatever the case of its letters.
pub proof fn law_reading_keeps_the_number(s: Seq<char>)
    requires
        forall|i: int| 0 <= i < s.len() ==> #[trigger] s[i] != '+',
    ensures
        hex_pairs(s) matches Ok(bytes) ==> crate::key::big_endian(bytes) == hex_number(s),
{
    law_hex_pairs_meaning(s);
    if let Ok(bytes) = hex_pairs(s) {
        lemma_number_of_pairs(s, bytes);
    }
}

/// Bytes behind others have their text behind the text of those.
pub proof fn law_hex_lower_of_two(a: Seq<u8>, b: Seq<u8>)
    ensures
        hex_lower(a + b) == hex_lower(a) + hex_lower(b),
{
    let s = hex_lower(a + b);
    assert forall|i: int| 0 <= i < s.len() implies s[i] == #[trigger] (hex_lower(a) + hex_lower(
        b,
    ))[i] by {
        if i < 2 * a.len() {
            assert(i / 2 < a.len());
        } else {
            let j = i - 2 * a.len();
            assert(i / 2 == a.len() + j / 2 && i % 2 == j % 2);
        }
    }
    assert(s =~= hex_lower(a) + hex_lower(b));
}

/// A fault is told by the first pair that has one, whatever is behind it, and
/// pairs in front of it that can be read make no difference.
pub proof fn law_hex_fault(head: Seq<char>, a: char, b: char, behind: Seq<char>)
    requires
        hex_pairs(head) is Ok,
    ensures
        a < '\u{80}' && b < '\u{80}' && !pair_reads(seq![a, b], 0) ==> hex_pairs(
            head + seq![a, b] + behind,
        ) == Err::<Seq<u8>, HexError>(HexError::NotHex),
        a < '\u{80}' && b >= '\u{80}' ==> hex_pairs(head + seq![a, b] + behind) == Err::<
            Seq<u8>,
            HexError,
        >(HexError::Misaligned),
        a < '\u{80}' ==> hex_pairs(head + seq![a]) == Err::<Seq<u8>, HexError>(
            HexError::Misaligned,
        ),
        '\u{80}' <= a < '\u{800}' ==> hex_pairs(head + seq![a] + behind) == Err::<
            Seq<u8>,
            HexError,
        >(HexError::NotHex),
        '\u{800}' <= a ==> hex_pairs(head + seq![a] + behind) == Err::<Seq<u8>, HexError>(
            HexError::Misaligned,
        ),
    decreases head.len(),
{
    let s2 = head + seq![a, b] + behind;
    let s1 = head + seq![a] + behind;
    let s0 = head + seq![a];
    if head.len() == 0 {
        assert(s2[0] == a && s2[1] == b);
        assert(s1[0] == a);
        assert(s0[0] == a && s0.len() == 1);
        assert(seq![a, b][0] == a && seq![a, b][1] == b);
    } else {
        law_hex_fault(head.skip(2), a, b, behind);
        assert(s2.skip(2) =~= head.skip(2) + seq![a, b] + behind);
        assert(s1.skip(2) =~= head.skip(2) + seq![a] + behind);
        assert(s0.skip(2) =~= head.skip(2) + seq![a]);
        assert(s2[0] == head[0] && s2[1] == head[1]);
        assert(s1[0] == head[0] && s1[1] == head[1]);
        assert(s0[0] == head[0] && s0[1] == head[1]);
    }
}

/// `read_hex_pairs` undoes `to_hex_lower`, and what `to_hex_lower` returns
/// writes the number that the bytes write.
pub proof fn law_hex_calls(bytes: &[u8], text: String, chars: &Vec<char>, r: Result<
    Vec<u8>,
    HexError,
>)
    requires
        call_ensures(to_hex_lower, (bytes,), text),
        chars@ == text@,
        call_ensures(read_hex_pairs, (chars,), r),
    ensures
        r matches Ok(back) && back@ == bytes@,
        text@.len() == 2 * bytes@.len(),
        hex_number(text@) == crate::key::big_endian(bytes@),
        forall|i: int| 0 <= i < text@.len() ==> is_sixteenth(#[trigger] text@[i]) && !('A'
            <= text@[i] <= 'F'),
{
    law_hex_round_trip(bytes@);
    law_hex_keeps_the_number(bytes@);
    law_hex_lower_form(bytes@);
    assert forall|i: int| 0 <= i < text@.len() implies is_sixteenth(#[trigger] text@[i]) && !('A'
        <= text@[i] <= 'F') by {
        assert(is_lower_hex(hex_lower(bytes@)[i]));
    }
}

} // verus!
