//! Text building blocks over `char` sequences.
//!
//! Every message, label and line of output of this crate is a sequence of
//! characters; the functions here build, measure and take apart such sequences.
use vstd::prelude::*;

verus! {

/// `String::push` adds one character at the end of a string and changes
/// nothing else of it.
pub assume_specification[ String::push ](s: &mut String, c: char)
    ensures
        final(s)@ == old(s)@.push(c),
;

/// The characters of `s`, in order.
pub fn chars_of(s: &str) -> (chars: Vec<char>)
    ensures
        chars@ == s@,
{
    let mut chars: Vec<char> = Vec::new();
    for c in it: s.chars()
        invariant
            chars@ == it.seq().take(it.index()),
            it.seq() == s@,
    {
        chars.push(c);
    }
    chars
}

/// Whether two texts hold the same characters.
pub fn same_text(a: &str, b: &str) -> (same: bool)
    ensures
        same == (a@ == b@),
{
    a.to_owned() == b.to_owned()
}

/// A text that may be missing, in view.
pub open spec fn maybe_text(s: Option<String>) -> Option<Seq<char>> {
    match s {
        Some(s) => Some(s@),
        None => None,
    }
}

/// The same text once more, where there is one.
pub fn copy_maybe(s: &Option<String>) -> (r: Option<String>)
    ensures
        maybe_text(r) == maybe_text(*s),
{
    match s {
        Some(s) => Some(s.clone()),
        None => None,
    }
}

/// Whether two texts that may be missing are the same.
pub fn same_maybe(a: &Option<String>, b: &Option<String>) -> (same: bool)
    ensures
        same == (maybe_text(*a) == maybe_text(*b)),
{
    match (a, b) {
        (Some(a), Some(b)) => same_text(a.as_str(), b.as_str()),
        (None, None) => true,
        _ => false,
    }
}

/// The digit for `d`, which is below sixteen.
pub open spec fn digit(d: nat) -> char {
    seq!['0', '1', '2', '3', '4', '5', '6', '7', '8', '9', 'a', 'b', 'c', 'd', 'e', 'f'][d as int]
}

fn digit_char(d: u8) -> (c: char)
    requires
        d < 16,
    ensures
        c == digit(d as nat),
{
    let digits: [char; 16] = [
        '0', '1', '2', '3', '4', '5', '6', '7', '8', '9', 'a', 'b', 'c', 'd', 'e', 'f',
    ];
    digits[d as usize]
}

/// `n` in decimal, without leading zeros.
pub open spec fn decimal(n: nat) -> Seq<char>
    decreases n,
{
    if n < 10 {
        seq![digit(n)]
    } else {
        decimal(n / 10).push(digit(n % 10))
    }
}

/// Adds `n` in decimal to the end of `out`.
pub fn append_decimal(out: &mut String, n: u128)
    ensures
        final(out)@ == old(out)@ + decimal(n as nat),
    decreases n,
{
    if n >= 10 {
        append_decimal(out, n / 10);
    }
    out.push(digit_char((n % 10) as u8));
}

/// `n` in decimal.
pub fn decimal_text(n: u128) -> (s: String)
    ensures
        s@ == decimal(n as nat),
{
    let mut s = String::new();
    append_decimal(&mut s, n);
    s
}

/// `n` in decimal, with a minus sign in front where it is negative.
pub open spec fn signed_decimal(n: int) -> Seq<char> {
    if n < 0 {
        seq!['-'] + decimal((-n) as nat)
    } else {
        decimal(n as nat)
    }
}

/// `n` in decimal, with a minus sign in front where it is negative.
pub fn signed_decimal_text(n: i32) -> (s: String)
    ensures
        s@ == signed_decimal(n as int),
{
    let mut s = String::new();
    if n < 0 {
        s.push('-');
        assert(s@ == seq!['-']);
        append_decimal(&mut s, (-(n as i64)) as u128);
    } else {
        append_decimal(&mut s, n as u128);
    }
    s
}

/// `n` as two lower-case hexadecimal digits.
pub open spec fn hex2(n: u8) -> Seq<char> {
    seq![digit((n / 16) as nat), digit((n % 16) as nat)]
}

/// `n` as four lower-case hexadecimal digits.
pub open spec fn hex4(n: u16) -> Seq<char> {
    hex2((n / 256) as u8) + hex2((n % 256) as u8)
}

/// Adds `n` as two hexadecimal digits to the end of `out`.
pub fn append_hex2(out: &mut String, n: u8)
    ensures
        final(out)@ == old(out)@ + hex2(n),
{
    out.push(digit_char(n / 16));
    out.push(digit_char(n % 16));
}

/// Adds `n` as four hexadecimal digits to the end of `out`.
pub fn append_hex4(out: &mut String, n: u16)
    ensures
        final(out)@ == old(out)@ + hex4(n),
{
    append_hex2(out, (n / 256) as u8);
    append_hex2(out, (n % 256) as u8);
}

/// `s` followed by as many spaces as it takes to fill `width` characters.
pub open spec fn padded(s: Seq<char>, width: nat) -> Seq<char> {
    if s.len() >= width {
        s
    } else {
        s + Seq::new((width - s.len()) as nat, |i: int| ' ')
    }
}

/// Adds `s` to the end of `out`, filled up with spaces to `width` characters.
pub fn append_padded(out: &mut String, s: &str, width: usize)
    ensures
        final(out)@ == old(out)@ + padded(s@, width as nat),
{
    out.append(s);
    let mut filled: usize = s.unicode_len();
    let ghost start = out@;
    let ghost len = s@.len();
    while filled < width
        invariant
            filled >= len,
            filled <= width || filled == len,
            out@ == start + Seq::new((filled - len) as nat, |i: int| ' '),
        decreases width - filled,
    {
        out.push(' ');
        filled = filled + 1;
    }
}

/// The characters of the views of `parts`.
pub open spec fn texts(parts: Seq<String>) -> Seq<Seq<char>> {
    parts.map_values(|part: String| part@)
}

/// `parts` one after the other, with `separator` between two of them.
pub open spec fn joined(parts: Seq<Seq<char>>, separator: Seq<char>) -> Seq<char>
    decreases parts.len(),
{
    if parts.len() == 0 {
        Seq::empty()
    } else if parts.len() == 1 {
        parts[0]
    } else {
        joined(parts.drop_last(), separator) + separator + parts.last()
    }
}

/// `parts` one after the other, with `separator` between two of them.
pub fn join_texts(parts: &Vec<String>, separator: &str) -> (s: String)
    ensures
        s@ == joined(texts(parts@), separator@),
{
    let mut s = String::new();
    for i in 0..parts.len()
        invariant
            s@ == joined(texts(parts@).take(i as int), separator@),
    {
        proof {
            assert(texts(parts@).take(i + 1).drop_last() == texts(parts@).take(i as int));
        }
        if i > 0 {
            s.append(separator);
        }
        s.append(parts[i].as_str());
    }
    assert(texts(parts@).take(parts.len() as int) == texts(parts@));
    s
}

/// The characters with the Unicode property `White_Space`.
pub open spec fn is_white_space(c: char) -> bool {
    ||| '\u{9}' <= c <= '\u{d}'
    ||| c == ' '
    ||| c == '\u{85}'
    ||| c == '\u{a0}'
    ||| c == '\u{1680}'
    ||| '\u{2000}' <= c <= '\u{200a}'
    ||| c == '\u{2028}'
    ||| c == '\u{2029}'
    ||| c == '\u{202f}'
    ||| c == '\u{205f}'
    ||| c == '\u{3000}'
}

fn white_space(c: char) -> (yes: bool)
    ensures
        yes == is_white_space(c),
{
    ('\u{9}' <= c && c <= '\u{d}') || c == ' ' || c == '\u{85}' || c == '\u{a0}' || c == '\u{1680}'
        || ('\u{2000}' <= c && c <= '\u{200a}') || c == '\u{2028}' || c == '\u{2029}'
        || c == '\u{202f}' || c == '\u{205f}' || c == '\u{3000}'
}

/// What is taken off both ends of a text.
#[derive(Clone, Copy, Debug, PartialEq, Eq, Structural)]
pub enum Margin {
    /// Unicode white space.
    WhiteSpace,
    /// Double quotes.
    Quotes,
}

impl Margin {
    /// Whether `c` belongs to the margin.
    pub open spec fn holds(self, c: char) -> bool {
        match self {
            Margin::WhiteSpace => is_white_space(c),
            Margin::Quotes => c == '"',
        }
    }

    fn has(self, c: char) -> (yes: bool)
        ensures
            yes == self.holds(c),
    {
        match self {
            Margin::WhiteSpace => white_space(c),
            Margin::Quotes => c == '"',
        }
    }
}

/// `s` without the margin in front of it.
pub open spec fn without_front(s: Seq<char>, margin: Margin) -> Seq<char>
    decreases s.len(),
{
    if s.len() > 0 && margin.holds(s[0]) {
        without_front(s.skip(1), margin)
    } else {
        s
    }
}

/// `s` without the margin behind it.
pub open spec fn without_back(s: Seq<char>, margin: Margin) -> Seq<char>
    decreases s.len(),
{
    if s.len() > 0 && margin.holds(s.last()) {
        without_back(s.drop_last(), margin)
    } else {
        s
    }
}

/// `s` without the margin at either end.
pub open spec fn trimmed(s: Seq<char>, margin: Margin) -> Seq<char> {
    without_back(without_front(s, margin), margin)
}

/// `s` without the margin at either end.
pub fn trim(s: &str, margin: Margin) -> (r: String)
    ensures
        r@ == trimmed(s@, margin),
{
    let chars = chars_of(s);
    let mut start: usize = 0;
    assert(s@.skip(0) == s@);
    while start < chars.len() && margin.has(chars[start])
        invariant
            start <= chars.len(),
            chars@ == s@,
            without_front(s@.skip(start as int), margin) == without_front(s@, margin),
        decreases chars.len() - start,
    {
        assert(s@.skip(start as int).skip(1) == s@.skip(start + 1));
        start = start + 1;
    }
    let ghost front = without_front(s@, margin);
    assert(front == s@.skip(start as int));
    let mut end: usize = chars.len();
    assert(s@.subrange(start as int, end as int) == front);
    while start < end && margin.has(chars[end - 1])
        invariant
            start <= end <= chars.len(),
            chars@ == s@,
            without_back(s@.subrange(start as int, end as int), margin) == without_back(front, margin),
        decreases end,
    {
        assert(s@.subrange(start as int, end as int).drop_last() == s@.subrange(
            start as int,
            end - 1,
        ));
        end = end - 1;
    }
    let mut r = String::new();
    let mut i: usize = start;
    while i < end
        invariant
            start <= i <= end <= chars.len(),
            chars@ == s@,
            r@ == s@.subrange(start as int, i as int),
        decreases end - i,
    {
        r.push(chars[i]);
        i = i + 1;
    }
    r
}

/// `c` in lower case where it is an ASCII letter, otherwise `c`.
pub open spec fn ascii_lower(c: char) -> char {
    if 'A' <= c <= 'Z' {
        ((c as u32 - 'A' as u32) + 'a' as u32) as char
    } else {
        c
    }
}

fn lower_char(c: char) -> (r: char)
    ensures
        r == ascii_lower(c),
{
    if 'A' <= c && c <= 'Z' {
        ((c as u8 - 'A' as u8) + 'a' as u8) as char
    } else {
        c
    }
}

/// `s` with its ASCII letters in lower case.
pub open spec fn lowered(s: Seq<char>) -> Seq<char> {
    s.map_values(|c: char| ascii_lower(c))
}

/// `s` with its ASCII letters in lower case.
pub fn lower(s: &str) -> (r: String)
    ensures
        r@ == lowered(s@),
{
    let chars = chars_of(s);
    let mut r = String::new();
    for i in 0..chars.len()
        invariant
            chars@ == s@,
            r@ == lowered(s@).take(i as int),
    {
        r.push(lower_char(chars[i]));
    }
    assert(lowered(s@).take(chars.len() as int) == lowered(s@));
    r
}

/// Whether `part` stands in `whole` from place `at` on.
pub open spec fn stands_at(whole: Seq<char>, part: Seq<char>, at: int) -> bool {
    &&& 0 <= at <= whole.len() - part.len()
    &&& whole.subrange(at, at + part.len()) == part
}

fn standing_at(whole: &Vec<char>, part: &Vec<char>, at: usize) -> (yes: bool)
    ensures
        yes == stands_at(whole@, part@, at as int),
{
    if whole.len() < part.len() || at > whole.len() - part.len() {
        return false;
    }
    for i in 0..part.len()
        invariant
            part.len() <= whole.len(),
            at <= whole.len() - part.len(),
            forall|j: int| 0 <= j < i ==> whole[at + j] == part[j],
    {
        if whole[at + i] != part[i] {
            assert(whole@.subrange(at as int, at + part@.len())[i as int] != part@[i as int]);
            return false;
        }
    }
    assert(whole@.subrange(at as int, at + part@.len()) == part@);
    true
}

/// Whether `part` stands anywhere in `whole`.
pub open spec fn has_part(whole: Seq<char>, part: Seq<char>) -> bool {
    exists|at: int| stands_at(whole, part, at)
}

/// Whether `part` stands anywhere in `whole`.
pub fn contains(whole: &str, part: &str) -> (yes: bool)
    ensures
        yes == has_part(whole@, part@),
{
    let w = chars_of(whole);
    let p = chars_of(part);
    let mut at: usize = 0;
    while at < w.len()
        invariant
            at <= w.len(),
            w@ == whole@,
            p@ == part@,
            forall|k: int| 0 <= k < at ==> !stands_at(w@, p@, k),
        decreases w.len() - at,
    {
        if standing_at(&w, &p, at) {
            return true;
        }
        at = at + 1;
    }
    standing_at(&w, &p, at)
}

/// Whether `whole` begins with `part`.
pub fn starts_with(whole: &str, part: &str) -> (yes: bool)
    ensures
        yes == stands_at(whole@, part@, 0),
{
    standing_at(&chars_of(whole), &chars_of(part), 0)
}

/// `s` without `end` behind it, where it ends so; otherwise `s`.
pub open spec fn without_end(s: Seq<char>, end: Seq<char>) -> Seq<char> {
    if stands_at(s, end, s.len() - end.len()) {
        s.take(s.len() - end.len())
    } else {
        s
    }
}

/// `s` without `end` behind it, where it ends so; otherwise `s`.
pub fn strip_end(s: &str, end: &str) -> (r: String)
    ensures
        r@ == without_end(s@, end@),
{
    let c = chars_of(s);
    let e = chars_of(end);
    if e.len() <= c.len() && standing_at(&c, &e, c.len() - e.len()) {
        s.substring_char(0, c.len() - e.len()).to_owned()
    } else {
        s.to_owned()
    }
}

/// `s` without `part`, taken out from the front on wherever it stands.
pub open spec fn without_part(s: Seq<char>, part: Seq<char>) -> Seq<char>
    decreases s.len(),
{
    if s.len() == 0 {
        s
    } else if part.len() > 0 && stands_at(s, part, 0) {
        without_part(s.skip(part.len() as int), part)
    } else {
        seq![s[0]] + without_part(s.skip(1), part)
    }
}

/// `s` without `part`, taken out from the front on wherever it stands.
pub fn remove_part(s: &str, part: &str) -> (r: String)
    ensures
        r@ == without_part(s@, part@),
{
    let c = chars_of(s);
    let p = chars_of(part);
    let mut r = String::new();
    let mut at: usize = 0;
    assert(s@.skip(0) == s@);
    while at < c.len()
        invariant
            at <= c.len(),
            c@ == s@,
            p@ == part@,
            r@ + without_part(s@.skip(at as int), part@) == without_part(s@, part@),
        decreases c.len() - at,
    {
        let ghost rest = s@.skip(at as int);
        let found = p.len() > 0 && standing_at(&c, &p, at);
        proof {
            assert(stands_at(rest, part@, 0) == stands_at(s@, part@, at as int)) by {
                if at <= s@.len() - part@.len() {
                    assert(rest.subrange(0, part@.len() as int) == s@.subrange(
                        at as int,
                        at + part@.len(),
                    ));
                }
            }
            if found {
                assert(rest.skip(part@.len() as int) == s@.skip(at + part@.len()));
            }
            assert(rest.skip(1) == s@.skip(at + 1));
        }
        if found {
            at = at + p.len();
        } else {
            r.push(c[at]);
            at = at + 1;
        }
    }
    r
}

/// Why a text is not a number.
#[derive(Clone, Copy, Debug, PartialEq, Eq, Structural)]
pub enum NumberError {
    /// There is no digit at all.
    Empty,
    /// Something other than a digit stands in it.
    InvalidDigit,
    /// The number is larger than the type holds.
    TooLarge,
}

impl NumberError {
    /// The reason in words.
    pub open spec fn spec_reason(self) -> Seq<char> {
        match self {
            NumberError::Empty => "cannot parse integer from empty string"@,
            NumberError::InvalidDigit => "invalid digit found in string"@,
            NumberError::TooLarge => "number too large to fit in target type"@,
        }
    }

    /// The reason in words.
    pub fn reason(self) -> (s: &'static str)
        ensures
            s@ == self.spec_reason(),
    {
        match self {
            NumberError::Empty => "cannot parse integer from empty string",
            NumberError::InvalidDigit => "invalid digit found in string",
            NumberError::TooLarge => "number too large to fit in target type",
        }
    }
}

/// The value of `c` as a digit, where it is one of the first `radix` digits.
pub open spec fn digit_value(c: char, radix: nat) -> Option<nat> {
    let value: int = if '0' <= c <= '9' {
        c as int - '0' as int
    } else if 'a' <= c <= 'z' {
        c as int - 'a' as int + 10
    } else if 'A' <= c <= 'Z' {
        c as int - 'A' as int + 10
    } else {
        radix as int
    };
    if value < radix {
        Some(value as nat)
    } else {
        None
    }
}

fn value_of_digit(c: char, radix: u32) -> (value: Option<u32>)
    requires
        radix <= 36,
    ensures
        match value {
            Some(v) => digit_value(c, radix as nat) == Some(v as nat),
            None => digit_value(c, radix as nat) is None,
        },
{
    let value: u32 = if '0' <= c && c <= '9' {
        c as u32 - '0' as u32
    } else if 'a' <= c && c <= 'z' {
        c as u32 - 'a' as u32 + 10
    } else if 'A' <= c && c <= 'Z' {
        c as u32 - 'A' as u32 + 10
    } else {
        radix
    };
    if value < radix {
        Some(value)
    } else {
        None
    }
}

/// The number that the digits `s` write, read from the front until it no
/// longer fits under `max` or something else than a digit comes.
pub open spec fn digits_number(s: Seq<char>, radix: nat, max: nat) -> Result<nat, NumberError>
    decreases s.len(),
{
    if s.len() == 0 {
        Ok(0)
    } else {
        match digits_number(s.drop_last(), radix, max) {
            Err(e) => Err(e),
            Ok(n) => match digit_value(s.last(), radix) {
                None => Err(NumberError::InvalidDigit),
                Some(d) => if n * radix + d <= max {
                    Ok(n * radix + d)
                } else {
                    Err(NumberError::TooLarge)
                },
            },
        }
    }
}

/// The number that `s` writes: digits, with a plus sign in front at most.
pub open spec fn number(s: Seq<char>, radix: nat, max: nat) -> Result<nat, NumberError> {
    if s.len() == 0 {
        Err(NumberError::Empty)
    } else if s.len() > 1 && s[0] == '+' {
        digits_number(s.skip(1), radix, max)
    } else {
        digits_number(s, radix, max)
    }
}

proof fn lemma_failed_prefix(s: Seq<char>, n: int, radix: nat, max: nat)
    requires
        0 <= n <= s.len(),
        digits_number(s.take(n), radix, max) is Err,
    ensures
        digits_number(s, radix, max) == digits_number(s.take(n), radix, max),
    decreases s.len() - n,
{
    if n == s.len() {
        assert(s.take(n) == s);
    } else {
        assert(s.take(n + 1).drop_last() == s.take(n));
        lemma_failed_prefix(s, n + 1, radix, max);
    }
}

/// The number that `s` writes in the given radix, up to `max`.
pub fn parse_number(s: &str, radix: u32, max: u32) -> (r: Result<u32, NumberError>)
    requires
        2 <= radix <= 36,
    ensures
        match r {
            Ok(n) => number(s@, radix as nat, max as nat) == Ok::<nat, NumberError>(n as nat),
            Err(e) => number(s@, radix as nat, max as nat) == Err::<nat, NumberError>(e),
        },
{
    let chars = chars_of(s);
    if chars.len() == 0 {
        return Err(NumberError::Empty);
    }
    let start: usize = if chars.len() > 1 && chars[0] == '+' {
        1
    } else {
        0
    };
    let ghost digits = s@.skip(start as int);
    assert(s@.skip(0) == s@);
    let mut n: u32 = 0;
    let mut i: usize = start;
    while i < chars.len()
        invariant
            2 <= radix <= 36,
            start <= i <= chars.len(),
            chars@ == s@,
            digits == s@.skip(start as int),
            n <= max,
            digits_number(digits.take(i - start), radix as nat, max as nat) == Ok::<nat, NumberError>(
                n as nat,
            ),
            number(s@, radix as nat, max as nat) == digits_number(digits, radix as nat, max as nat),
        decreases chars.len() - i,
    {
        proof {
            assert(digits.take(i - start + 1).drop_last() == digits.take(i - start));
            assert(digits.take(i - start + 1).last() == chars@[i as int]);
            if digits_number(digits.take(i - start + 1), radix as nat, max as nat) is Err {
                lemma_failed_prefix(digits, i - start + 1, radix as nat, max as nat);
            }
            assert(n * radix <= u32::MAX * 36) by (nonlinear_arith)
                requires
                    n <= u32::MAX,
                    radix <= 36,
            ;
        }
        match value_of_digit(chars[i], radix) {
            None => {
                return Err(NumberError::InvalidDigit);
            },
            Some(d) => {
                let next: u64 = (n as u64) * (radix as u64) + (d as u64);
                if next > max as u64 {
                    return Err(NumberError::TooLarge);
                }
                n = next as u32;
            },
        }
        i = i + 1;
    }
    assert(digits.take(i - start) == digits);
    Ok(n)
}

} // verus!
