//! What holds of texts: of numbers that are written and read, of names of
//! programs and of rates.
use crate::cli::{byte_number, hex_words, parsed_byte, typed_payload};
use crate::config::AppRule;
use crate::devices::{
    parsed_rate, rate_of_number, rate_of_signed_number, written_rate, PollingRate,
};
use crate::error::{plain_error, ErrorText};
use crate::interfaces::ids_text;
use crate::payloads::with_report8_crc;
use crate::process_rules::{exe_name, in_force, is_bare, is_running_in};
use crate::text::{
    decimal, digit, digits_number, has_part, hex2, hex4, is_white_space, joined, lowered, number,
    padded, signed_decimal, stands_at, trimmed, without_back, without_end, without_front,
    without_part, Margin, NumberError,
};
use vstd::prelude::*;

verus! {

/// Whether a character is a decimal digit.
pub open spec fn is_digit(c: char) -> bool {
    '0' <= c <= '9'
}

proof fn lemma_decimal_is_read(n: nat, max: nat)
    requires
        n <= max,
    ensures
        digits_number(decimal(n), 10, max) == Ok::<nat, NumberError>(n),
        decimal(n).len() > 0,
        forall|i: int| 0 <= i < decimal(n).len() ==> is_digit(#[trigger] decimal(n)[i]),
        n > 0 ==> decimal(n)[0] != '0',
    decreases n,
{
    let last = digit(n % 10);
    assert(is_digit(last) && last as int - '0' as int == n % 10);
    if n < 10 {
        assert(decimal(n).drop_last() =~= Seq::<char>::empty());
        assert(digits_number(decimal(n).drop_last(), 10, max) == Ok::<nat, NumberError>(0));
    } else {
        lemma_decimal_is_read(n / 10, max);
        assert(decimal(n).drop_last() =~= decimal(n / 10));
        assert((n / 10) * 10 + n % 10 == n);
    }
}

/// A number that is written in decimal is read as that number, where it fits;
/// it consists of digits, and starts with a zero only where it is zero.
pub proof fn law_written_numbers_are_read(n: nat, max: nat)
    requires
        n <= max,
    ensures
        number(decimal(n), 10, max) == Ok::<nat, NumberError>(n),
        number(seq!['+'] + decimal(n), 10, max) == Ok::<nat, NumberError>(n),
        forall|i: int| 0 <= i < decimal(n).len() ==> is_digit(#[trigger] decimal(n)[i]),
        decimal(n)[0] == '0' ==> n == 0,
{
    lemma_decimal_is_read(n, max);
    assert((seq!['+'] + decimal(n)).skip(1) =~= decimal(n));
}

/// Numbers differ where their texts do.
pub proof fn law_numbers_have_one_text(a: nat, b: nat)
    ensures
        decimal(a) == decimal(b) <==> a == b,
{
    let max = if a < b {
        b
    } else {
        a
    };
    lemma_decimal_is_read(a, max);
    lemma_decimal_is_read(b, max);
}

/// A number that is too large is not read, nor an empty text, nor one with
/// anything but digits in it.
pub proof fn law_other_numbers_are_refused(s: Seq<char>, radix: nat, max: nat)
    ensures
        number(s, radix, max) matches Ok(n) ==> n <= max && s.len() > 0,
        number(Seq::empty(), radix, max) == Err::<nat, NumberError>(NumberError::Empty),
        radix == 10 && s.len() > 0 && !is_digit(s.last()) ==> number(s, radix, max) is Err,
{
    lemma_read_numbers_fit(s, radix, max);
    if s.len() > 0 {
        lemma_read_numbers_fit(s.skip(1), radix, max);
        if s.len() > 1 {
            assert(s.skip(1).last() == s.last());
        }
    }
}

proof fn lemma_read_numbers_fit(s: Seq<char>, radix: nat, max: nat)
    ensures
        digits_number(s, radix, max) matches Ok(n) ==> n <= max,
    decreases s.len(),
{
    if s.len() > 0 {
        lemma_read_numbers_fit(s.drop_last(), radix, max);
    }
}

/// Each further digit counts, and the first that does not fit ends the number.
pub proof fn law_digits_count(s: Seq<char>, c: char, max: nat, n: nat)
    requires
        digits_number(s, 10, max) == Ok::<nat, NumberError>(n),
    ensures
        ({
            let value = c as int - '0' as int;
            &&& is_digit(c) && n * 10 + value <= max ==> digits_number(s.push(c), 10, max) == Ok::<
                nat,
                NumberError,
            >((n * 10 + value) as nat)
            &&& is_digit(c) && n * 10 + value > max ==> digits_number(s.push(c), 10, max) == Err::<
                nat,
                NumberError,
            >(NumberError::TooLarge)
            &&& !is_digit(c) ==> digits_number(s.push(c), 10, max) == Err::<nat, NumberError>(
                NumberError::InvalidDigit,
            )
        }),
{
    assert(s.push(c).drop_last() =~= s);
}

/// A negative number is written with a minus in front of its size.
pub proof fn law_negative_numbers(n: int)
    ensures
        n >= 0 ==> signed_decimal(n) == decimal(n as nat),
        n < 0 ==> signed_decimal(n).len() > 0 && signed_decimal(n)[0] == '-' && signed_decimal(
            n,
        ).skip(1) == decimal((-n) as nat),
{
    if n < 0 {
        assert(signed_decimal(n).skip(1) =~= decimal((-n) as nat));
    }
}

/// A number in hexadecimal has two or four characters, none of them a capital,
/// and is read as that number.
pub proof fn law_hexadecimal_numbers_are_read(byte: u8, word: u16)
    ensures
        hex2(byte).len() == 2,
        digits_number(hex2(byte), 16, 255) == Ok::<nat, NumberError>(byte as nat),
        hex4(word).len() == 4,
        digits_number(hex4(word), 16, 65535) == Ok::<nat, NumberError>(word as nat),
        forall|i: int| 0 <= i < 4 ==> !('A' <= #[trigger] hex4(word)[i] <= 'Z'),
{
    lemma_hex2_is_read(byte, 255);
    let high = (word / 256) as u8;
    let low = (word % 256) as u8;
    lemma_hex2_is_read(high, 65535);
    lemma_hex2_is_read(low, 65535);
    let s = hex4(word);
    let three = s.drop_last();
    let two = three.drop_last();
    assert(two =~= hex2(high));
    assert(three.last() == hex2(low)[0] && s.last() == hex2(low)[1]);
    lemma_hex_digit((low / 16) as nat);
    lemma_hex_digit((low % 16) as nat);
    lemma_hex_digit((high / 16) as nat);
    lemma_hex_digit((high % 16) as nat);
    assert(high * 256 + low == word);
    assert(digits_number(three, 16, 65535) == Ok::<nat, NumberError>(
        (high * 16 + low / 16) as nat,
    ));
    assert((high * 16 + low / 16) * 16 + low % 16 == word);
    assert(s[0] == hex2(high)[0] && s[1] == hex2(high)[1]);
}

proof fn lemma_hex_digit(d: nat)
    requires
        d < 16,
    ensures
        crate::text::digit_value(digit(d), 16) == Some(d),
        !('A' <= digit(d) <= 'Z'),
{
}

proof fn lemma_hex2_is_read(byte: u8, max: nat)
    requires
        max >= 255,
    ensures
        digits_number(hex2(byte), 16, max) == Ok::<nat, NumberError>(byte as nat),
{
    let s = hex2(byte);
    lemma_hex_digit((byte / 16) as nat);
    lemma_hex_digit((byte % 16) as nat);
    let one = s.drop_last();
    assert(one =~= seq![digit((byte / 16) as nat)]);
    assert(one.drop_last() =~= Seq::<char>::empty());
    assert(digits_number(one.drop_last(), 16, max) == Ok::<nat, NumberError>(0));
    assert(digits_number(one, 16, max) == Ok::<nat, NumberError>((byte / 16) as nat));
    assert((byte / 16) * 16 + byte % 16 == byte);
}

/// Ids are written as four characters each, with a colon between them, the
/// vendor first; devices with other ids have other texts.
pub proof fn law_ids_have_one_text(vid: u16, pid: u16, other_vid: u16, other_pid: u16)
    ensures
        ids_text(vid, pid).len() == 9,
        ids_text(vid, pid)[4] == ':',
        ids_text(vid, pid).take(4) == hex4(vid),
        ids_text(vid, pid).skip(5) == hex4(pid),
        ids_text(vid, pid) == ids_text(other_vid, other_pid) <==> vid == other_vid && pid
            == other_pid,
{
    reveal_strlit(":");
    assert(ids_text(vid, pid).take(4) =~= hex4(vid));
    assert(ids_text(vid, pid).skip(5) =~= hex4(pid));
    assert(ids_text(other_vid, other_pid).take(4) =~= hex4(other_vid));
    assert(ids_text(other_vid, other_pid).skip(5) =~= hex4(other_pid));
    law_hexadecimal_numbers_are_read(0, vid);
    law_hexadecimal_numbers_are_read(0, pid);
    law_hexadecimal_numbers_are_read(0, other_vid);
    law_hexadecimal_numbers_are_read(0, other_pid);
}

/// A text that is too short is filled up with blanks at its end, and is never
/// cut.
pub proof fn law_padded_texts(s: Seq<char>, width: nat)
    ensures
        padded(s, width).len() == if s.len() < width {
            width
        } else {
            s.len()
        },
        padded(s, width).take(s.len() as int) == s,
        forall|i: int|
            s.len() <= i < padded(s, width).len() ==> #[trigger] padded(s, width)[i] == ' ',
{
    assert(padded(s, width).take(s.len() as int) =~= s);
}

/// Parts are joined with the separator between each two.
pub proof fn law_joined_parts(parts: Seq<Seq<char>>, part: Seq<char>, separator: Seq<char>)
    ensures
        joined(Seq::empty(), separator) == Seq::<char>::empty(),
        joined(seq![part], separator) == part,
        parts.len() > 0 ==> joined(parts.push(part), separator) == joined(parts, separator)
            + separator + part,
{
    assert(parts.push(part).drop_last() =~= parts);
}

/// Capitals become small letters, one for one, and nothing else changes.
pub proof fn law_small_letters(s: Seq<char>, i: int)
    requires
        0 <= i < s.len(),
    ensures
        lowered(s).len() == s.len(),
        'A' <= s[i] <= 'Z' ==> lowered(s)[i] as int == s[i] as int + 32,
        !('A' <= s[i] <= 'Z') ==> lowered(s)[i] == s[i],
        lowered(lowered(s)) == lowered(s),
{
    assert(lowered(lowered(s)) =~= lowered(s));
}

/// Trimming takes away from both ends what belongs to the margin, all of it, and
/// nothing else.
pub proof fn law_trimmed_texts(s: Seq<char>, margin: Margin)
    ensures
        ({
            let t = trimmed(s, margin);
            &&& t.len() > 0 ==> !margin.holds(t[0]) && !margin.holds(t.last())
            &&& exists|from: int, to: int|
                0 <= from <= to <= s.len() && t == #[trigger] s.subrange(from, to) && (forall|
                    i: int,
                |
                    0 <= i < from || to <= i < s.len() ==> margin.holds(#[trigger] s[i]))
        }),
{
    let from = lemma_without_front(s, margin);
    let rest = s.skip(from);
    let len = lemma_without_back(rest, margin);
    let t = trimmed(s, margin);
    assert(t =~= s.subrange(from, from + len));
    assert forall|i: int| 0 <= i < from || from + len <= i < s.len() implies margin.holds(
        #[trigger] s[i],
    ) by {
        if i >= from {
            assert(rest[i - from] == s[i]);
        }
    }
    if t.len() > 0 {
        assert(t[0] == rest[0]);
    }
}

proof fn lemma_without_front(s: Seq<char>, margin: Margin) -> (from: int)
    ensures
        0 <= from <= s.len(),
        without_front(s, margin) == s.skip(from),
        forall|i: int| 0 <= i < from ==> margin.holds(#[trigger] s[i]),
        from < s.len() ==> !margin.holds(s[from]),
    decreases s.len(),
{
    if s.len() > 0 && margin.holds(s[0]) {
        let from = lemma_without_front(s.skip(1), margin);
        assert(s.skip(1).skip(from) =~= s.skip(from + 1));
        assert forall|i: int| 0 <= i < from + 1 implies margin.holds(#[trigger] s[i]) by {
            if i > 0 {
                assert(s.skip(1)[i - 1] == s[i]);
            }
        }
        from + 1
    } else {
        assert(s.skip(0) =~= s);
        0
    }
}

proof fn lemma_without_back(s: Seq<char>, margin: Margin) -> (len: int)
    ensures
        0 <= len <= s.len(),
        without_back(s, margin) == s.take(len),
        forall|i: int| len <= i < s.len() ==> margin.holds(#[trigger] s[i]),
        len > 0 ==> !margin.holds(s[len - 1]),
    decreases s.len(),
{
    if s.len() > 0 && margin.holds(s.last()) {
        let len = lemma_without_back(s.drop_last(), margin);
        assert(s.drop_last().take(len) =~= s.take(len));
        assert forall|i: int| len <= i < s.len() implies margin.holds(#[trigger] s[i]) by {
            if i < s.len() - 1 {
                assert(s.drop_last()[i] == s[i]);
            }
        }
        len
    } else {
        assert(s.take(s.len() as int) =~= s);
        s.len() as int
    }
}

/// Blanks, tabs and line ends are margins, and so are double quotes where they
/// count; letters and digits are not.
pub proof fn law_margins(c: char)
    ensures
        c == ' ' || c == '\t' || c == '\n' || c == '\r' ==> is_white_space(c),
        '!' <= c <= '~' ==> !is_white_space(c),
        Margin::WhiteSpace.holds(c) <==> is_white_space(c),
        Margin::Quotes.holds(c) <==> c == '"',
{
}

/// An end that is there is taken off once; a text without it stays.
pub proof fn law_ends_are_taken_off(s: Seq<char>, end: Seq<char>)
    ensures
        without_end(s + end, end) == s,
        !(exists|front: Seq<char>| s == #[trigger] (front + end)) ==> without_end(s, end) == s,
{
    let whole = s + end;
    assert(whole.subrange(whole.len() - end.len(), whole.len() as int) =~= end);
    assert(whole.take(whole.len() - end.len()) =~= s);
    if stands_at(s, end, s.len() - end.len()) {
        let front = s.take(s.len() - end.len());
        assert(s =~= front + end);
    }
}

/// A part is taken out wherever it stands, from the front on; what does not
/// begin a part stays.
pub proof fn law_parts_are_taken_out(s: Seq<char>, c: char, part: Seq<char>)
    requires
        part.len() > 0,
    ensures
        without_part(part + s, part) == without_part(s, part),
        without_part(Seq::empty(), part) == Seq::<char>::empty(),
        c != part[0] ==> without_part(seq![c] + s, part) == seq![c] + without_part(s, part),
{
    assert((part + s).subrange(0, part.len() as int) =~= part);
    assert((part + s).skip(part.len() as int) =~= s);
    let more = seq![c] + s;
    assert(more.skip(1) =~= s);
    if stands_at(more, part, 0) {
        assert(more.subrange(0, part.len() as int)[0] == more[0]);
    }
}

/// A text has a part where it is that part with something before and after it.
pub proof fn law_parts_of_texts(before: Seq<char>, part: Seq<char>, after: Seq<char>)
    ensures
        has_part(before + part + after, part),
        stands_at(part + after, part, 0),
        part.len() > (before + after).len() ==> !has_part(before + after, part),
{
    let whole = before + part + after;
    assert(whole.subrange(before.len() as int, before.len() as int + part.len()) =~= part);
    assert(stands_at(whole, part, before.len() as int));
    assert((part + after).subrange(0, part.len() as int) =~= part);
}

/// The name of a program is its small letters, without an `.exe` at the end: two
/// programs with other names are other programs.
pub proof fn law_program_names(name: Seq<char>, other: Seq<char>)
    requires
        is_bare(name),
        is_bare(other),
        without_end(lowered(name), ".exe"@) == lowered(name),
        without_end(lowered(other), ".exe"@) == lowered(other),
    ensures
        exe_name(name) == lowered(name),
        exe_name(name) == exe_name(other) <==> lowered(name) == lowered(other),
{
    assert(trimmed(name, Margin::WhiteSpace) == name);
    assert(trimmed(name, Margin::Quotes) == name);
    assert(trimmed(other, Margin::WhiteSpace) == other);
    assert(trimmed(other, Margin::Quotes) == other);
}

/// Quotes around a name, and blanks around those, do not matter.
pub proof fn law_quotes_do_not_matter(name: Seq<char>)
    requires
        is_bare(name),
    ensures
        exe_name(seq!['"'] + name + seq!['"']) == exe_name(name),
        exe_name(seq![' '] + name + seq![' ']) == exe_name(name),
{
    let in_quotes = seq!['"'] + name + seq!['"'];
    let in_blanks = seq![' '] + name + seq![' '];
    lemma_one_around(name, '"', Margin::Quotes);
    lemma_one_around(name, ' ', Margin::WhiteSpace);
    assert(trimmed(in_quotes, Margin::WhiteSpace) == in_quotes);
    assert(trimmed(name, Margin::WhiteSpace) == name);
    assert(trimmed(name, Margin::Quotes) == name);
}

proof fn lemma_one_around(name: Seq<char>, c: char, margin: Margin)
    requires
        name.len() > 0,
        margin.holds(c),
        !margin.holds(name[0]),
        !margin.holds(name.last()),
    ensures
        trimmed(seq![c] + name + seq![c], margin) == name,
{
    let whole = seq![c] + name + seq![c];
    let rest = name + seq![c];
    assert(whole.skip(1) =~= rest);
    assert(without_front(rest, margin) == rest);
    assert(rest.drop_last() =~= name);
    assert(without_back(name, margin) == name);
}

/// A program runs where one of the processes has its name. The rule in force is
/// the first of those whose program runs, and there is at most one.
pub proof fn law_rules_in_force(
    rules: Seq<AppRule>,
    processes: Seq<Seq<char>>,
    i: int,
    j: int,
    k: int,
)
    requires
        0 <= i < rules.len(),
        0 <= k < processes.len(),
    ensures
        exe_name(processes[k]) == exe_name(rules[i].exe@) ==> is_running_in(
            processes,
            rules[i].exe@,
        ),
        is_running_in(processes, rules[i].exe@) ==> exists|m: int|
            0 <= m < processes.len() && exe_name(#[trigger] processes[m]) == exe_name(
                rules[i].exe@,
            ),
        in_force(rules, processes, i) && in_force(rules, processes, j) ==> i == j,
        in_force(rules, processes, j) && is_running_in(processes, rules[i].exe@) ==> j <= i,
        in_force(rules, processes, j) ==> is_running_in(processes, rules[j].exe@),
{
}

/// A number is read as a rate just where it is the number of that rate; a
/// negative one never is. What is refused is named: a number below zero as
/// such, one over 65535 as too large, any other as unknown.
pub proof fn law_numbers_of_rates(value: u64, signed: i64, rate: PollingRate)
    ensures
        rate_of_number(value) matches Err(e) ==> e == plain_error(
            if value <= 65535 {
                "unknown polling rate: "@
            } else {
                "polling rate is too large: "@
            } + decimal(value as nat),
        ),
        signed < 0 ==> rate_of_signed_number(signed) == Err::<PollingRate, ErrorText>(
            plain_error("polling rate must be positive: "@ + seq!['-'] + decimal(-signed as nat)),
        ),
        signed >= 0 ==> rate_of_signed_number(signed) == rate_of_number(signed as u64),
        rate_of_number(value) == Ok::<PollingRate, ErrorText>(rate) <==> value == rate.hz(),
        rate_of_signed_number(signed) == Ok::<PollingRate, ErrorText>(rate) <==> signed
            == rate.hz(),
{
    lemma_number_of_rate(value, rate);
    if signed >= 0 {
        lemma_number_of_rate(signed as u64, rate);
    } else {
        assert("polling rate must be positive: "@ + signed_decimal(signed as int)
            =~= "polling rate must be positive: "@ + seq!['-'] + decimal(-signed as nat));
    }
}

proof fn lemma_number_of_rate(value: u64, rate: PollingRate)
    ensures
        rate_of_number(value) == Ok::<PollingRate, ErrorText>(rate) <==> value == rate.hz(),
{
    if value == rate.hz() {
        crate::device_laws::law_written_numbers_read_back(rate);
    } else if value <= u16::MAX {
        let s = decimal(value as nat);
        lemma_decimal_is_read(value as nat, value as nat);
        crate::device_laws::lemma_digits_stay(s);
        assert(written_rate(s) == crate::devices::rate_named(s));
        if written_rate(s) == Some(rate) {
            reveal_strlit("1k");
            reveal_strlit("2k");
            reveal_strlit("4k");
            reveal_strlit("8k");
            assert forall|t: Seq<char>|
                t.len() == 2 && t[1] == 'k' implies s != t by {
                if s == t {
                    assert(is_digit(s[1]));
                }
            }
            lemma_number_names(rate);
            law_numbers_have_one_text(value as nat, rate.hz() as nat);
        }
    }
}

/// The number of a rate in decimal.
proof fn lemma_number_names(rate: PollingRate)
    ensures
        decimal(rate.hz() as nat) == match rate {
            PollingRate::Hz125 => "125"@,
            PollingRate::Hz250 => "250"@,
            PollingRate::Hz500 => "500"@,
            PollingRate::Hz1000 => "1000"@,
            PollingRate::Hz2000 => "2000"@,
            PollingRate::Hz4000 => "4000"@,
            PollingRate::Hz8000 => "8000"@,
        },
{
    crate::device_laws::lemma_rate_digits(rate);
    reveal_strlit("125");
    reveal_strlit("250");
    reveal_strlit("500");
    reveal_strlit("1000");
    reveal_strlit("2000");
    reveal_strlit("4000");
    reveal_strlit("8000");
    match rate {
        PollingRate::Hz125 => assert(decimal(rate.hz() as nat) =~= "125"@),
        PollingRate::Hz250 => assert(decimal(rate.hz() as nat) =~= "250"@),
        PollingRate::Hz500 => assert(decimal(rate.hz() as nat) =~= "500"@),
        PollingRate::Hz1000 => assert(decimal(rate.hz() as nat) =~= "1000"@),
        PollingRate::Hz2000 => assert(decimal(rate.hz() as nat) =~= "2000"@),
        PollingRate::Hz4000 => assert(decimal(rate.hz() as nat) =~= "4000"@),
        PollingRate::Hz8000 => assert(decimal(rate.hz() as nat) =~= "8000"@),
    }
}

/// A rate of whole thousands may be written as their number with a `k`, in
/// either case.
pub proof fn law_thousands_are_short(rate: PollingRate)
    requires
        rate.hz() >= 1000,
    ensures
        ({
            let thousands = decimal((rate.hz() / 1000) as nat);
            &&& parsed_rate(thousands + seq!['k']) == Ok::<PollingRate, ErrorText>(rate)
            &&& parsed_rate(thousands + seq!['K']) == Ok::<PollingRate, ErrorText>(rate)
        }),
{
    let d = digit((rate.hz() / 1000) as nat);
    let small = decimal((rate.hz() / 1000) as nat) + seq!['k'];
    let large = decimal((rate.hz() / 1000) as nat) + seq!['K'];
    assert(small =~= seq![d, 'k']);
    assert(large =~= seq![d, 'K']);
    assert(lowered(small) =~= small);
    assert(lowered(large) =~= small);
    assert(trimmed(small, Margin::WhiteSpace) == small);
    assert(trimmed(large, Margin::WhiteSpace) == large);
    reveal_strlit("hz");
    if stands_at(small, "hz"@, 0) {
        assert(small.subrange(0, 2)[0] == small[0]);
        assert("hz"@[0] == 'h');
    }
    let tail = small.skip(1);
    assert(tail =~= seq!['k']);
    assert(!stands_at(tail, "hz"@, 0));
    assert(tail.skip(1) =~= Seq::<char>::empty());
    assert(without_part(tail.skip(1), "hz"@) =~= Seq::<char>::empty());
    assert(without_part(tail, "hz"@) =~= tail);
    assert(without_part(small, "hz"@) =~= small);
    reveal_strlit("125");
    reveal_strlit("250");
    reveal_strlit("500");
    reveal_strlit("1000");
    reveal_strlit("2000");
    reveal_strlit("4000");
    reveal_strlit("8000");
    reveal_strlit("1k");
    reveal_strlit("2k");
    reveal_strlit("4k");
    reveal_strlit("8k");
    assert("125"@.len() == 3 && "250"@.len() == 3 && "500"@.len() == 3);
    assert("1000"@.len() == 4 && "2000"@.len() == 4 && "4000"@.len() == 4 && "8000"@.len() == 4);
    assert("1k"@[0] == '1' && "2k"@[0] == '2' && "4k"@[0] == '4' && "8k"@[0] == '8');
    match rate {
        PollingRate::Hz1000 => assert(small =~= "1k"@),
        PollingRate::Hz2000 => assert(small =~= "2k"@),
        PollingRate::Hz4000 => assert(small =~= "4k"@),
        PollingRate::Hz8000 => assert(small =~= "8k"@),
        _ => {},
    }
}

/// A byte is read from a decimal number, or from a hexadecimal one behind `0x`;
/// blanks around it do not matter.
pub proof fn law_typed_bytes(byte: u8, quoted: Seq<char>)
    ensures
        parsed_byte(decimal(byte as nat), quoted) == Ok::<u8, ErrorText>(byte),
        parsed_byte(seq!['0', 'x'] + hex2(byte), quoted) == Ok::<u8, ErrorText>(byte),
        parsed_byte(seq!['0', 'X'] + hex2(byte), quoted) == Ok::<u8, ErrorText>(byte),
{
    let plain = decimal(byte as nat);
    lemma_decimal_is_read(byte as nat, 255);
    assert(!is_white_space(plain[0]) && !is_white_space(plain.last()));
    assert(trimmed(plain, Margin::WhiteSpace) == plain);
    reveal_strlit("0x");
    reveal_strlit("0X");
    if stands_at(plain, "0x"@, 0) {
        assert(plain.subrange(0, 2)[1] == plain[1]);
        assert("0x"@[1] == 'x');
        assert(is_digit(plain[1]));
    }
    if stands_at(plain, "0X"@, 0) {
        assert(plain.subrange(0, 2)[1] == plain[1]);
        assert("0X"@[1] == 'X');
        assert(is_digit(plain[1]));
    }
    lemma_hex2_is_read(byte, 255);
    lemma_hex_digit((byte / 16) as nat);
    lemma_hex_digit((byte % 16) as nat);
    let small = seq!['0', 'x'] + hex2(byte);
    let large = seq!['0', 'X'] + hex2(byte);
    assert(trimmed(small, Margin::WhiteSpace) == small);
    assert(trimmed(large, Margin::WhiteSpace) == large);
    assert(small.subrange(0, 2) =~= "0x"@);
    assert(large.subrange(0, 2) =~= "0X"@);
    assert(small.skip(2) =~= hex2(byte));
    assert(large.skip(2) =~= hex2(byte));
}

/// A typed report is filled up to sixteen bytes, and gets its checksum where it
/// is asked for; more than sixteen bytes are refused.
pub proof fn law_typed_reports(raw: Seq<String>, write_crc: bool)
    ensures
        raw.len() > 16 ==> typed_payload(raw, write_crc) is Err,
        typed_payload(raw, write_crc) is Ok <==> typed_payload(raw, !write_crc) is Ok,
        typed_payload(raw, false) matches Ok(payload) ==> {
            &&& payload.len() == 16
            &&& forall|i: int|
                0 <= i < raw.len() ==> byte_number((#[trigger] raw[i])@) == Ok::<nat, NumberError>(
                    payload[i] as nat,
                )
            &&& forall|i: int| raw.len() <= i < 16 ==> #[trigger] payload[i] == 0
            &&& typed_payload(raw, true) == Ok::<Seq<u8>, ErrorText>(with_report8_crc(payload))
        },
{
    lemma_typed_bytes_count(raw, raw.len());
}

proof fn lemma_typed_bytes_count(raw: Seq<String>, n: nat)
    requires
        n <= raw.len(),
    ensures
        crate::cli::parsed_bytes(raw, n) matches Ok(bytes) ==> bytes.len() == n && forall|i: int|
            0 <= i < n ==> byte_number((#[trigger] raw[i])@) == Ok::<nat, NumberError>(
                bytes[i] as nat,
            ),
    decreases n,
{
    if n > 0 {
        lemma_typed_bytes_count(raw, (n - 1) as nat);
        let last = raw[n - 1]@;
        let bare = trimmed(last, Margin::WhiteSpace);
        law_other_numbers_are_refused(bare.skip(2), 16, 255);
        law_other_numbers_are_refused(bare, 10, 255);
    }
}

/// A usage is written in hexadecimal, or said to be unknown.
pub proof fn law_usages(value: u16)
    ensures
        hex_words(Some(value)) == seq!['0', 'x'] + hex4(value),
        hex_words(None) == "unknown"@,
{
    reveal_strlit("0x");
    assert("0x"@ =~= seq!['0', 'x']);
}

/// White space is what Unicode calls so, by the numbers of the characters.
pub proof fn law_white_space(c: char)
    ensures
        is_white_space(c) <==> {
            let n = c as u32;
            9 <= n <= 13 || n == 32 || n == 133 || n == 160 || n == 5760 || 8192 <= n <= 8202 || n
                == 8232 || n == 8233 || n == 8239 || n == 8287 || n == 12288
        },
{
}

} // verus!
