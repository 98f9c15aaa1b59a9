//! Plain text: the lines of a file, and numbers in decimal.

use vstd::prelude::*;
use vstd::string::*;

verus! {

/// The characters with the Unicode property `White_Space`.
pub open spec fn is_white_space(c: char) -> bool {
    let u = c as u32;
    ||| 0x09 <= u <= 0x0d
    ||| u == 0x20
    ||| u == 0x85
    ||| u == 0xa0
    ||| u == 0x1680
    ||| 0x2000 <= u <= 0x200a
    ||| u == 0x2028
    ||| u == 0x2029
    ||| u == 0x202f
    ||| u == 0x205f
    ||| u == 0x3000
}

/// `s` without the white space it begins with.
pub open spec fn trim_start(s: Seq<char>) -> Seq<char>
    decreases s.len(),
{
    if s.len() > 0 && is_white_space(s.first()) {
        trim_start(s.drop_first())
    } else {
        s
    }
}

/// `s` without the white space it ends with.
pub open spec fn trim_end(s: Seq<char>) -> Seq<char>
    decreases s.len(),
{
    if s.len() > 0 && is_white_space(s.last()) {
        trim_end(s.drop_last())
    } else {
        s
    }
}

/// `s` without the white space around it.
pub open spec fn trim(s: Seq<char>) -> Seq<char> {
    trim_end(trim_start(s))
}

/// The length of the first line of `s`, its line break not counted.
pub open spec fn line_len(s: Seq<char>) -> nat
    decreases s.len(),
{
    if s.len() == 0 || s.first() == '\n' {
        0
    } else {
        1 + line_len(s.drop_first())
    }
}

/// The lines of `s`, trimmed, without those that are blank.
pub open spec fn filled_lines(s: Seq<char>) -> Seq<Seq<char>>
    decreases s.len(),
    via filled_lines_decreases
{
    let n = line_len(s) as int;
    let line = trim(s.take(n));
    let rest = if n < s.len() {
        filled_lines(s.skip(n + 1))
    } else {
        Seq::empty()
    };
    if line.len() > 0 {
        seq![line] + rest
    } else {
        rest
    }
}

#[via_fn]
proof fn filled_lines_decreases(s: Seq<char>) {
    lemma_line_len(s);
}

/// The element of `lines` at `n`, if there is one.
pub open spec fn nth(lines: Seq<Seq<char>>, n: int) -> Option<Seq<char>> {
    if 0 <= n < lines.len() {
        Some(lines[n])
    } else {
        None
    }
}

/// The digits of `n` in base ten, without leading zeros.
pub open spec fn digits(n: nat) -> Seq<char>
    decreases n,
{
    if n < 10 {
        seq![crate::hex::hex_digit(n as int)]
    } else {
        digits(n / 10).push(crate::hex::hex_digit((n % 10) as int))
    }
}

/// `n` in base ten, behind a minus sign where it is negative.
pub open spec fn decimal(n: int) -> Seq<char> {
    if n < 0 {
        seq!['-'] + digits((-n) as nat)
    } else {
        digits(n as nat)
    }
}

/// A line ends where its text ends or where it breaks, and nowhere before.
pub proof fn lemma_line_len(s: Seq<char>)
    ensures
        line_len(s) <= s.len(),
        line_len(s) < s.len() ==> s[line_len(s) as int] == '\n',
        forall|i: int| 0 <= i < line_len(s) ==> s[i] != '\n',
    decreases s.len(),
{
    if s.len() > 0 && s.first() != '\n' {
        lemma_line_len(s.drop_first());
        assert forall|i: int| 0 <= i < line_len(s) implies s[i] != '\n' by {
            if i > 0 {
                assert(s.drop_first()[i - 1] == s[i]);
            }
        }
    }
}

/// What `lemma_line_len` says of a line's length holds of no other length.
proof fn lemma_line_len_unique(s: Seq<char>, n: int)
    requires
        0 <= n <= s.len(),
        n < s.len() ==> s[n] == '\n',
        forall|i: int| 0 <= i < n ==> s[i] != '\n',
    ensures
        line_len(s) == n,
{
    lemma_line_len(s);
    let m = line_len(s) as int;
    if m < n {
        assert(s[m] == '\n');
    } else if n < m {
        assert(s[n] == '\n');
    }
}

/// Trimming the front of `s` steps over white space one character at a time.
proof fn lemma_trim_start_step(s: Seq<char>, i: int)
    requires
        0 <= i < s.len(),
        is_white_space(s[i]),
    ensures
        trim_start(s.skip(i)) == trim_start(s.skip(i + 1)),
{
    assert(s.skip(i).drop_first() =~= s.skip(i + 1));
}

/// A text that neither begins nor ends with white space is its own trimmed form.
pub proof fn lemma_trim_fixed(s: Seq<char>)
    requires
        s.len() > 0,
        !is_white_space(s.first()),
        !is_white_space(s.last()),
    ensures
        trim(s) == s,
{
}

/// A line that is not blank comes first among the filled lines of a text that
/// begins with it.
pub proof fn lemma_first_filled_line(line: Seq<char>, behind: Seq<char>)
    requires
        trim(line).len() > 0,
        forall|i: int| 0 <= i < line.len() ==> line[i] != '\n',
        behind.len() == 0 || behind[0] == '\n',
    ensures
        filled_lines(line + behind) == seq![trim(line)] + (if behind.len() > 0 {
            filled_lines(behind.skip(1))
        } else {
            Seq::empty()
        }),
{
    let s = line + behind;
    lemma_line_len_unique(s, line.len() as int);
    assert(s.take(line.len() as int) =~= line);
    if behind.len() > 0 {
        assert(s.skip(line.len() as int + 1) =~= behind.skip(1));
    }
}

/// Whether `c` is white space.
fn white_space(c: char) -> (r: bool)
    ensures
        r == is_white_space(c),
{
    let u: u32 = c as u32;
    (0x09 <= u && u <= 0x0d) || u == 0x20 || u == 0x85 || u == 0xa0 || u == 0x1680 || (0x2000 <= u
        && u <= 0x200a) || u == 0x2028 || u == 0x2029 || u == 0x202f || u == 0x205f || u == 0x3000
}

/// The characters of `s`.
pub fn chars_of(s: &str) -> (r: Vec<char>)
    ensures
        r@ == s@,
{
    let mut out: Vec<char> = Vec::new();
    for c in it: s.chars()
        invariant
            it.seq() == s@,
            out@ == s@.take(it.index()),
    {
        out.push(c);
        assert(s@.take(it.index() + 1) =~= s@.take(it.index()).push(c));
    }
    assert(s@.take(s@.len() as int) =~= s@);
    out
}

/// The trimmed form of the characters of `chars` from `from` up to `to`.
fn trimmed(chars: &Vec<char>, from: usize, to: usize) -> (r: Vec<char>)
    requires
        from <= to <= chars@.len(),
    ensures
        r@ == trim(chars@.subrange(from as int, to as int)),
{
    let ghost line = chars@.subrange(from as int, to as int);
    let mut a: usize = from;
    assert(line.skip(0) =~= line);
    while a < to && white_space(chars[a])
        invariant
            from <= a <= to <= chars@.len(),
            line == chars@.subrange(from as int, to as int),
            trim_start(line) == trim_start(line.skip(a - from)),
        decreases to - a,
    {
        proof {
            lemma_trim_start_step(line, a - from);
        }
        a = a + 1;
    }
    let ghost body = chars@.subrange(a as int, to as int);
    assert(line.skip(a - from) =~= body);
    assert(trim_start(line) == body);
    let mut b: usize = to;
    while a < b && white_space(chars[b - 1])
        invariant
            a <= b <= to <= chars@.len(),
            trim_end(body) == trim_end(chars@.subrange(a as int, b as int)),
        decreases b - a,
    {
        assert(chars@.subrange(a as int, b as int).drop_last() =~= chars@.subrange(
            a as int,
            b - 1,
        ));
        b = b - 1;
    }
    let mut out: Vec<char> = Vec::new();
    let mut i: usize = a;
    while i < b
        invariant
            a <= i <= b <= chars@.len(),
            out@ == chars@.subrange(a as int, i as int),
        decreases b - i,
    {
        out.push(chars[i]);
        i = i + 1;
        assert(chars@.subrange(a as int, i as int) =~= chars@.subrange(a as int, i - 1).push(
            chars@[i - 1],
        ));
    }
    out
}

/// The filled line of `text` that `n` others stand before, if there is one.
pub fn filled_line(text: &str, n: usize) -> (r: Option<Vec<char>>)
    ensures
        match r {
            Some(line) => nth(filled_lines(text@), n as int) == Some(line@),
            None => nth(filled_lines(text@), n as int) is None,
        },
{
    let chars = chars_of(text);
    let mut from: usize = 0;
    let mut left: usize = n;
    assert(text@.skip(0) =~= text@);
    loop
        invariant
            chars@ == text@,
            from <= chars@.len(),
            nth(filled_lines(text@), n as int) == nth(
                filled_lines(text@.skip(from as int)),
                left as int,
            ),
        decreases chars@.len() - from,
    {
        let ghost rest = text@.skip(from as int);
        let mut to: usize = from;
        while to < chars.len() && chars[to] != '\n'
            invariant
                chars@ == text@,
                from <= to <= chars@.len(),
                forall|i: int| from <= i < to ==> chars@[i] != '\n',
            decreases chars@.len() - to,
        {
            to = to + 1;
        }
        proof {
            lemma_line_len_unique(rest, to - from);
            assert(rest.take(to - from) =~= chars@.subrange(from as int, to as int));
        }
        let line = trimmed(&chars, from, to);
        if line.len() > 0 {
            if left == 0 {
                return Some(line);
            }
            left = left - 1;
        }
        if to == chars.len() {
            return None;
        }
        assert(rest.skip(to - from + 1) =~= text@.skip(to + 1));
        from = to + 1;
    }
}

/// The digits of `n` in base ten.
fn digits_of(n: u64) -> (r: String)
    ensures
        r@ == digits(n as nat),
    decreases n,
{
    if n < 10 {
        crate::hex::digit(n as u8).to_owned()
    } else {
        let mut s = digits_of(n / 10);
        s.append(crate::hex::digit((n % 10) as u8));
        assert(s@ =~= digits(n as nat));
        s
    }
}

/// `n` in base ten, as an identifier of a title is written.
pub fn decimal_of(n: i64) -> (r: String)
    ensures
        r@ == decimal(n as int),
{
    if n < 0 {
        let magnitude: u64 = (-(n + 1)) as u64 + 1;
        let mut s = "-".to_owned();
        proof {
            reveal_strlit("-");
        }
        s.append(digits_of(magnitude).as_str());
        assert(s@ =~= decimal(n as int));
        s
    } else {
        digits_of(n as u64)
    }
}

/// Whether `s` is white space alone.
pub open spec fn all_white(s: Seq<char>) -> bool {
    forall|i: int| 0 <= i < s.len() ==> is_white_space(#[trigger] s[i])
}

/// Whether `s` breaks no line.
pub open spec fn no_break(s: Seq<char>) -> bool {
    forall|i: int| 0 <= i < s.len() ==> #[trigger] s[i] != '\n'
}

/// Whether `s` neither begins nor ends with white space.
pub open spec fn is_tight(s: Seq<char>) -> bool {
    s.len() > 0 ==> !is_white_space(s[0]) && !is_white_space(s[s.len() - 1])
}

proof fn lemma_trim_start_skips(a: Seq<char>, t: Seq<char>)
    requires
        all_white(a),
    ensures
        trim_start(a + t) == trim_start(t),
    decreases a.len(),
{
    if a.len() == 0 {
        assert(a + t =~= t);
    } else {
        assert((a + t).first() == a[0]);
        assert((a + t).drop_first() =~= a.drop_first() + t);
        lemma_trim_start_skips(a.drop_first(), t);
    }
}

proof fn lemma_trim_end_skips(t: Seq<char>, b: Seq<char>)
    requires
        all_white(b),
    ensures
        trim_end(t + b) == trim_end(t),
    decreases b.len(),
{
    if b.len() == 0 {
        assert(t + b =~= t);
    } else {
        assert((t + b).last() == b[b.len() - 1]);
        assert((t + b).drop_last() =~= t + b.drop_last());
        lemma_trim_end_skips(t, b.drop_last());
    }
}

/// White space around a text that has none at its ends is all that trimming
/// takes away.
pub proof fn law_trim_takes_the_white_space_around(a: Seq<char>, t: Seq<char>, b: Seq<char>)
    requires
        all_white(a),
        is_tight(t),
        all_white(b),
    ensures
        trim(a + t + b) == t,
{
    assert(a + t + b =~= a + (t + b));
    lemma_trim_start_skips(a, t + b);
    if t.len() == 0 {
        assert(t + b =~= b + t);
        lemma_trim_start_skips(b, t);
    } else {
        assert((t + b).first() == t[0]);
        lemma_trim_end_skips(t, b);
    }
}

/// How many characters of white space `s` begins with.
proof fn lemma_leading(s: Seq<char>) -> (n: int)
    ensures
        0 <= n <= s.len(),
        all_white(s.take(n)),
        n < s.len() ==> !is_white_space(s[n]),
    decreases s.len(),
{
    if s.len() > 0 && is_white_space(s[0]) {
        let m = lemma_leading(s.drop_first());
        assert forall|i: int| 0 <= i < m + 1 implies is_white_space(#[trigger] s.take(m + 1)[i]) by {
            if i > 0 {
                assert(s.drop_first().take(m)[i - 1] == s[i]);
            }
        }
        if m + 1 < s.len() {
            assert(s.drop_first()[m] == s[m + 1]);
        }
        m + 1
    } else {
        0
    }
}

/// How many characters of white space `s` ends with.
proof fn lemma_trailing(s: Seq<char>) -> (n: int)
    ensures
        0 <= n <= s.len(),
        all_white(s.skip(s.len() - n)),
        n < s.len() ==> !is_white_space(s[s.len() - n - 1]),
    decreases s.len(),
{
    if s.len() > 0 && is_white_space(s[s.len() - 1]) {
        let t = s.drop_last();
        let m = lemma_trailing(t);
        let tail = s.skip(s.len() - (m + 1));
        assert forall|i: int| 0 <= i < tail.len() implies is_white_space(#[trigger] tail[i]) by {
            if i < m {
                assert(t.skip(t.len() - m)[i] == tail[i]);
            }
        }
        m + 1
    } else {
        0
    }
}

/// Whether `s` is `t` with white space alone around it.
pub open spec fn is_around(a: Seq<char>, t: Seq<char>, b: Seq<char>, s: Seq<char>) -> bool {
    all_white(a) && all_white(b) && s == a + t + b
}

/// A trimmed text neither begins nor ends with white space, and what trimming
/// took away in front of it and behind it is white space alone.
pub proof fn law_trim_splits(s: Seq<char>)
    ensures
        is_tight(trim(s)),
        exists|a: Seq<char>, b: Seq<char>| #[trigger] is_around(a, trim(s), b, s),
{
    let n = lemma_leading(s);
    let a = s.take(n);
    let rest = s.skip(n);
    let m = lemma_trailing(rest);
    let t = rest.take(rest.len() - m);
    let b = rest.skip(rest.len() - m);
    assert(s =~= a + t + b);
    if t.len() > 0 {
        assert(t[0] == s[n]);
        assert(t[t.len() - 1] == rest[rest.len() - m - 1]);
    }
    law_trim_takes_the_white_space_around(a, t, b);
    assert(is_around(a, trim(s), b, s));
}

/// More white space around a text makes no difference to its trimmed form.
pub proof fn law_trim_ignores_more_white_space(a: Seq<char>, s: Seq<char>, b: Seq<char>)
    requires
        all_white(a),
        all_white(b),
    ensures
        trim(a + s + b) == trim(s),
{
    law_trim_splits(s);
    let (c, d) = choose|c: Seq<char>, d: Seq<char>| #[trigger] is_around(c, trim(s), d, s);
    assert(a + s + b =~= (a + c) + trim(s) + (d + b));
    law_trim_takes_the_white_space_around(a + c, trim(s), d + b);
}

/// White space is what Unicode lists under that property, and nothing else.
pub proof fn law_white_space(c: char)
    ensures
        is_white_space(c) <==> ({
            ||| '\t' <= c <= '\r'
            ||| c == ' '
            ||| c == '\u{85}'
            ||| c == '\u{a0}'
            ||| c == '\u{1680}'
            ||| '\u{2000}' <= c <= '\u{200a}'
            ||| c == '\u{2028}'
            ||| c == '\u{2029}'
            ||| c == '\u{202f}'
            ||| c == '\u{205f}'
            ||| c == '\u{3000}'
        }),
{
}

/// A text that breaks no line has its trimmed form for its one filled line, or
/// none where it is blank.
pub proof fn law_one_line(line: Seq<char>)
    requires
        no_break(line),
    ensures
        trim(line).len() > 0 ==> filled_lines(line) == seq![trim(line)],
        trim(line).len() == 0 ==> filled_lines(line).len() == 0,
{
    lemma_line_len_unique(line, line.len() as int);
    assert(line.take(line.len() as int) =~= line);
    assert(seq![trim(line)] + Seq::<Seq<char>>::empty() =~= seq![trim(line)]);
}

/// The filled lines of two texts with a line break between them are those of
/// the first and then those of the second.
pub proof fn law_lines_of_two_texts(a: Seq<char>, b: Seq<char>)
    ensures
        filled_lines(a + seq!['\n'] + b) == filled_lines(a) + filled_lines(b),
    decreases a.len(),
{
    let s = a + seq!['\n'] + b;
    let n = line_len(a) as int;
    lemma_line_len(a);
    lemma_line_len_unique(s, n);
    assert(s.take(n) =~= a.take(n));
    let line = trim(a.take(n));
    if n < a.len() {
        let rest = a.skip(n + 1);
        assert(s.skip(n + 1) =~= rest + seq!['\n'] + b);
        law_lines_of_two_texts(rest, b);
        assert(seq![line] + (filled_lines(rest) + filled_lines(b)) =~= (seq![line] + filled_lines(
            rest,
        )) + filled_lines(b));
    } else {
        assert(s.skip(n + 1) =~= b);
        assert(seq![line] + Seq::<Seq<char>>::empty() =~= seq![line]);
        assert(Seq::<Seq<char>>::empty() + filled_lines(b) =~= filled_lines(b));
    }
}

/// The number that digits in base ten write.
pub open spec fn natural_of(text: Seq<char>) -> int
    decreases text.len(),
{
    if text.len() == 0 {
        0
    } else {
        10 * natural_of(text.drop_last()) + (text.last() as int - '0' as int)
    }
}

/// The number that a text in base ten writes, with its sign.
pub open spec fn number_of(text: Seq<char>) -> int {
    if text.len() > 0 && text[0] == '-' {
        -natural_of(text.skip(1))
    } else {
        natural_of(text)
    }
}

/// Whether `text` is digits in base ten, at least one and with no zero in front
/// of others.
pub open spec fn is_plain_natural(text: Seq<char>) -> bool {
    &&& text.len() > 0
    &&& forall|i: int| 0 <= i < text.len() ==> '0' <= #[trigger] text[i] <= '9'
    &&& text.len() > 1 ==> text[0] != '0'
}

/// Whether `text` is a whole number as it is plainly written: no plus sign, no
/// zeros in front, a minus sign only where the number is below zero.
pub open spec fn is_plain_number(text: Seq<char>) -> bool {
    if text.len() > 0 && text[0] == '-' {
        is_plain_natural(text.skip(1)) && text[1] != '0'
    } else {
        is_plain_natural(text)
    }
}

proof fn lemma_digits(n: nat)
    ensures
        natural_of(digits(n)) == n,
        is_plain_natural(digits(n)),
        n > 0 ==> digits(n)[0] != '0',
    decreases n,
{
    if n < 10 {
        let s = digits(n);
        assert(s.drop_last() =~= Seq::<char>::empty());
        assert(natural_of(s.drop_last()) == 0);
    } else {
        lemma_digits(n / 10);
        let s = digits(n);
        assert(s.drop_last() =~= digits(n / 10));
        assert(s[0] == digits(n / 10)[0]);
        assert forall|i: int| 0 <= i < s.len() implies '0' <= #[trigger] s[i] <= '9' by {
            if i < s.len() - 1 {
                assert(s[i] == digits(n / 10)[i]);
            }
        }
    }
}

/// The decimal text of a number writes that number, plainly.
pub proof fn law_decimal_writes_the_number(n: int)
    ensures
        number_of(decimal(n)) == n,
        is_plain_number(decimal(n)),
{
    if n < 0 {
        lemma_digits((-n) as nat);
        assert(decimal(n).skip(1) =~= digits((-n) as nat));
    } else {
        lemma_digits(n as nat);
    }
}

/// What `decimal_of` returns for a number writes that number, plainly.
pub proof fn law_decimal_of(n: i64, text: String)
    requires
        call_ensures(decimal_of, (n,), text),
    ensures
        number_of(text@) == n,
        is_plain_number(text@),
{
    law_decimal_writes_the_number(n as int);
}

/// What `filled_line` returns for a text is the line that comes behind `n`
/// other filled ones, trimmed, whatever comes behind it.
pub proof fn law_filled_line(before: Seq<char>, line: Seq<char>, text: &str, n: usize, r: Option<
    Vec<char>,
>)
    requires
        call_ensures(filled_line, (text, n), r),
        no_break(line),
        trim(line).len() > 0,
        text@ == before + seq!['\n'] + line || exists|behind: Seq<char>|
            text@ == #[trigger] (before + seq!['\n'] + line + seq!['\n'] + behind),
        filled_lines(before).len() == n,
    ensures
        r matches Some(found) && found@ == trim(line),
{
    law_one_line(line);
    law_lines_of_two_texts(before, line);
    if text@ != before + seq!['\n'] + line {
        let behind = choose|behind: Seq<char>|
            text@ == #[trigger] (before + seq!['\n'] + line + seq!['\n'] + behind);
        law_lines_of_two_texts(before + seq!['\n'] + line, behind);
    }
    assert(filled_lines(text@)[n as int] == trim(line));
}

/// `filled_line` finds nothing exactly where there are too few filled lines.
pub proof fn law_filled_line_is_missing(text: &str, n: usize, r: Option<Vec<char>>)
    requires
        call_ensures(filled_line, (text, n), r),
    ensures
        r is None <==> filled_lines(text@).len() <= n,
{
}

/// A line with anything on it but white space is filled, and others are blank.
pub proof fn law_filled(line: Seq<char>)
    ensures
        trim(line).len() > 0 <==> !all_white(line),
{
    law_trim_splits(line);
    let (a, b) = choose|a: Seq<char>, b: Seq<char>| #[trigger] is_around(a, trim(line), b, line);
    if trim(line).len() > 0 {
        assert(line[a.len() as int] == trim(line)[0]);
    } else {
        assert(a + trim(line) + b =~= a + b);
    }
}

/// A carriage return in front of a line break makes no difference to the filled
/// lines of a text.
pub proof fn law_carriage_return(before: Seq<char>, line: Seq<char>, behind: Seq<char>)
    requires
        no_break(line),
    ensures
        filled_lines(before + seq!['\n'] + (line + seq!['\r']) + seq!['\n'] + behind)
            == filled_lines(before + seq!['\n'] + line + seq!['\n'] + behind),
        filled_lines(line + seq!['\r'] + seq!['\n'] + behind) == filled_lines(
            line + seq!['\n'] + behind,
        ),
        filled_lines(before + seq!['\n'] + (line + seq!['\r'])) == filled_lines(
            before + seq!['\n'] + line,
        ),
{
    let longer = line + seq!['\r'];
    law_trim_ignores_more_white_space(Seq::empty(), line, seq!['\r']);
    assert(Seq::<char>::empty() + line + seq!['\r'] =~= longer);
    law_one_line(line);
    law_one_line(longer);
    assert(filled_lines(longer) =~= filled_lines(line));
    law_lines_of_two_texts(before, line);
    law_lines_of_two_texts(before, longer);
    law_lines_of_two_texts(before + seq!['\n'] + line, behind);
    law_lines_of_two_texts(before + seq!['\n'] + longer, behind);
    law_lines_of_two_texts(line, behind);
    law_lines_of_two_texts(longer, behind);
}

} // verus!
