use xodus_auth::hex::{digit, read_hex_pairs, to_hex_lower, HexError};
use xodus_auth::text::{chars_of, decimal_of, filled_line};

fn line(text: &str, n: usize) -> Option<String> {
    filled_line(text, n).map(|chars| chars.into_iter().collect())
}

fn bytes(text: &str) -> Result<Vec<u8>, HexError> {
    read_hex_pairs(&chars_of(text))
}

/// The pairs of `text` as the standard library cuts and reads them.
fn std_bytes(text: &str) -> Option<Vec<u8>> {
    (0..text.len())
        .step_by(2)
        .map(|i| u8::from_str_radix(&text[i..i + 2], 16))
        .collect::<Result<Vec<u8>, _>>()
        .ok()
}

#[test]
fn filled_lines_are_trimmed_and_counted() {
    let text = "\n  one\t\r\n \r\n\u{a0}two three\u{3000}\nfour";
    assert_eq!(line(text, 0).as_deref(), Some("one"));
    assert_eq!(line(text, 1).as_deref(), Some("two three"));
    assert_eq!(line(text, 2).as_deref(), Some("four"));
    assert_eq!(line(text, 3), None);
    assert_eq!(line("", 0), None);
    assert_eq!(line("\n\n", 0), None);
}

#[test]
fn a_bare_carriage_return_breaks_no_line() {
    assert_eq!(line("a\rb\nc", 0).as_deref(), Some("a\rb"));
    assert_eq!(line("a\rb\nc", 1).as_deref(), Some("c"));
}

#[test]
fn filled_lines_agree_with_std_on_every_character() {
    for u in 0..=0x10ffffu32 {
        if let Some(c) = char::from_u32(u) {
            if u < 0x3100 || u % 97 == 0 {
                let text = format!("{c}x{c}");
                let std_line = text
                    .lines()
                    .map(str::trim)
                    .filter(|l| !l.is_empty())
                    .nth(0)
                    .map(str::to_owned);
                assert_eq!(line(&text, 0), std_line, "U+{u:04X}");
            }
        }
    }
}

#[test]
fn pairs_are_read() {
    assert_eq!(bytes(""), Ok(vec![]));
    assert_eq!(bytes("00ff7A"), Ok(vec![0, 255, 0x7a]));
    assert_eq!(bytes("+f+0"), Ok(vec![15, 0]));
}

#[test]
fn faults_are_told_apart() {
    assert_eq!(bytes("0g"), Err(HexError::NotHex));
    assert_eq!(bytes("-1"), Err(HexError::NotHex));
    assert_eq!(bytes("++"), Err(HexError::NotHex));
    assert_eq!(bytes("1+"), Err(HexError::NotHex));
    assert_eq!(bytes("\u{e9}"), Err(HexError::NotHex));
    assert_eq!(bytes("0"), Err(HexError::Misaligned));
    assert_eq!(bytes("012"), Err(HexError::Misaligned));
    assert_eq!(bytes("0\u{e9}1"), Err(HexError::Misaligned));
    assert_eq!(bytes("\u{20ac}0"), Err(HexError::Misaligned));
    assert_eq!(bytes("\u{1f600}"), Err(HexError::Misaligned));
    assert_eq!(bytes("zz1"), Err(HexError::NotHex));
}

#[test]
fn every_ascii_pair_agrees_with_std() {
    for a in 0..128u8 {
        for b in 0..128u8 {
            let text: String = [a as char, b as char].iter().collect();
            assert_eq!(bytes(&text).ok(), std_bytes(&text), "{text:?}");
        }
    }
}

#[test]
fn hex_is_lower_case_and_reads_back() {
    assert_eq!(to_hex_lower(&[0, 1, 0xab, 0xff]), "0001abff");
    assert_eq!(to_hex_lower(&[]), "");
    let all: Vec<u8> = (0..=255).collect();
    assert_eq!(bytes(&to_hex_lower(&all)), Ok(all));
    assert_eq!(digit(15), "f");
}

#[test]
fn decimal_numbers() {
    assert_eq!(decimal_of(0), "0");
    assert_eq!(decimal_of(9), "9");
    assert_eq!(decimal_of(10), "10");
    assert_eq!(decimal_of(896928775), "896928775");
    assert_eq!(decimal_of(-1842668909), "-1842668909");
    assert_eq!(decimal_of(i64::MAX), i64::MAX.to_string());
    assert_eq!(decimal_of(i64::MIN), i64::MIN.to_string());
}
