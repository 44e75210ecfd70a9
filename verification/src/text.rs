//! Text as it is measured, cut, joined and rendered.

use vstd::prelude::*;
use vstd::string::*;
use vstd::utf8::*;

verus! {

/// The number of bytes that `text` takes when it is written as UTF-8.
pub open spec fn utf8_len(text: Seq<char>) -> nat {
    encode_utf8(text).len()
}

/// The longest prefix of `text` that takes at most `limit` bytes.
pub open spec fn longest_prefix(text: Seq<char>, limit: nat) -> Seq<char>
    decreases text.len(),
{
    if text.len() == 0 || utf8_len(text) <= limit {
        text
    } else {
        longest_prefix(text.drop_last(), limit)
    }
}

/// The mark that ends a text which was cut.
pub const TRUNCATION_SUFFIX: &'static str = "...[truncated]";

/// What is left of `text` when it may take at most `limit` bytes: all of it where it fits;
/// otherwise the longest prefix that leaves room for the mark, and the mark; otherwise as much of
/// the mark as fits.
pub open spec fn truncated(text: Seq<char>, limit: nat) -> Seq<char> {
    let mark = TRUNCATION_SUFFIX@;
    if utf8_len(text) <= limit {
        text
    } else if limit <= mark.len() {
        mark.take(limit as int)
    } else {
        longest_prefix(text, (limit - mark.len()) as nat) + mark
    }
}

/// The length of `text` in bytes.
pub fn byte_len(text: &str) -> (len: usize)
    ensures
        len == utf8_len(text@),
        len == encode_utf8(text@).len(),
{
    text.as_bytes().len()
}

/// The bytes of two texts in a row are the bytes of the first, then those of the second.
pub proof fn lemma_encode_concat(first: Seq<char>, second: Seq<char>)
    ensures
        encode_utf8(first + second) == encode_utf8(first) + encode_utf8(second),
        utf8_len(first + second) == utf8_len(first) + utf8_len(second),
    decreases first.len(),
{
    if first.len() == 0 {
        assert(first + second =~= second);
    } else {
        assert((first + second).drop_first() =~= first.drop_first() + second);
        lemma_encode_concat(first.drop_first(), second);
    }
    assert(encode_utf8(first + second) =~= encode_utf8(first) + encode_utf8(second));
}

/// The end of a prefix is a character boundary of the whole text.
proof fn lemma_prefix_ends_at_boundary(first: Seq<char>, second: Seq<char>)
    ensures
        is_char_boundary(encode_utf8(first + second), utf8_len(first) as int),
    decreases first.len(),
{
    broadcast use encode_utf8_valid_utf8;

    let whole = first + second;
    if first.len() == 0 {
    } else {
        lemma_encode_concat(first, second);
        encode_utf8_first_scalar(whole);
        encode_utf8_first_scalar(first);
        assert(whole.drop_first() =~= first.drop_first() + second);
        assert(pop_first_scalar(encode_utf8(whole)) =~= encode_utf8(whole.drop_first()));
        lemma_prefix_ends_at_boundary(first.drop_first(), second);
    }
}

/// A prefix that fits, none longer of which fits, is the longest one.
proof fn lemma_longest_prefix_is(text: Seq<char>, limit: nat, count: int)
    requires
        0 <= count <= text.len(),
        utf8_len(text.take(count)) <= limit,
        forall|m: int| count < m <= text.len() ==> utf8_len(#[trigger] text.take(m)) > limit,
    ensures
        longest_prefix(text, limit) == text.take(count),
    decreases text.len(),
{
    if count == text.len() {
        assert(text.take(count) =~= text);
    } else {
        assert(text.take(text.len() as int) =~= text);
        let shorter = text.drop_last();
        assert(shorter.take(count) =~= text.take(count));
        assert forall|m: int| count < m <= shorter.len() implies utf8_len(
            #[trigger] shorter.take(m),
        ) > limit by {
            assert(shorter.take(m) =~= text.take(m));
        }
        lemma_longest_prefix_is(shorter, limit, count);
    }
}

/// Cutting the bytes of `text` at the last character boundary within `limit` leaves the longest
/// prefix that fits.
proof fn lemma_cut_at_last_boundary(text: Seq<char>, limit: nat, end: int)
    requires
        0 <= end <= limit,
        limit < utf8_len(text),
        is_char_boundary(encode_utf8(text), end),
        forall|b: int| end < b <= limit ==> !is_char_boundary(encode_utf8(text), b),
    ensures
        encode_utf8(longest_prefix(text, limit)) == encode_utf8(text).subrange(0, end),
{
    broadcast use encode_utf8_valid_utf8;

    let bytes = encode_utf8(text);
    let head = decode_utf8(bytes.subrange(0, end));
    let tail = decode_utf8(bytes.subrange(end, bytes.len() as int));
    valid_utf8_split(bytes, end);
    decode_utf8_split(bytes, end);
    encode_utf8_decode_utf8(text);
    decode_utf8_encode_utf8(bytes.subrange(0, end));
    assert(text == head + tail);
    let count = head.len() as int;
    assert(text.take(count) =~= head);
    assert forall|m: int| count < m <= text.len() implies utf8_len(#[trigger] text.take(m))
        > limit by {
        assert(text.take(m) + text.skip(m) =~= text);
        lemma_prefix_ends_at_boundary(text.take(m), text.skip(m));
        let middle = text.subrange(count, m);
        assert(head + middle =~= text.take(m));
        lemma_encode_concat(head, middle);
        assert(encode_utf8(middle).len() > 0);
    }
    lemma_longest_prefix_is(text, limit, count);
}

/// Two texts with the same bytes are the same text.
proof fn lemma_encode_injective(left: Seq<char>, right: Seq<char>)
    requires
        encode_utf8(left) == encode_utf8(right),
    ensures
        left == right,
{
    encode_utf8_decode_utf8(left);
    encode_utf8_decode_utf8(right);
}

/// Cuts `value` down to at most `max_bytes` bytes, without splitting a character.
pub fn truncate_utf8(value: &str, max_bytes: usize) -> (kept: String)
    ensures
        kept@ == truncated(value@, max_bytes as nat),
{
    if byte_len(value) <= max_bytes {
        return value.to_owned();
    }
    let mark: &str = TRUNCATION_SUFFIX;
    proof {
        reveal_strlit("...[truncated]");
        is_ascii_chars_encode_utf8(mark@);
    }
    if max_bytes <= mark.as_bytes().len() {
        return mark.substring_ascii(0, max_bytes).to_owned();
    }
    let limit: usize = max_bytes - mark.as_bytes().len();
    let mut end: usize = limit;
    proof {
        encode_utf8_valid_utf8(value@);
    }
    while !value.is_char_boundary(end)
        invariant
            end <= limit < utf8_len(value@),
            valid_utf8(encode_utf8(value@)),
            forall|b: int| end < b <= limit ==> !is_char_boundary(encode_utf8(value@), b),
        decreases end,
    {
        end = end - 1;
    }
    let (head, _) = value.split_at(end);
    proof {
        lemma_cut_at_last_boundary(value@, limit as nat, end as int);
        lemma_encode_injective(head@, longest_prefix(value@, limit as nat));
    }
    let mut kept = head.to_owned();
    kept.append(mark);
    kept
}

/// The prefix that `longest_prefix` picks fits, begins the text, and no longer prefix fits.
pub proof fn lemma_longest_prefix(text: Seq<char>, limit: nat)
    ensures
        longest_prefix(text, limit).is_prefix_of(text),
        utf8_len(longest_prefix(text, limit)) <= limit,
        forall|m: int|
            longest_prefix(text, limit).len() < m <= text.len() ==> utf8_len(#[trigger] text.take(m))
                > limit,
    decreases text.len(),
{
    if text.len() == 0 || utf8_len(text) <= limit {
    } else {
        let shorter = text.drop_last();
        lemma_longest_prefix(shorter, limit);
        assert forall|m: int|
            longest_prefix(text, limit).len() < m <= text.len() implies utf8_len(
            #[trigger] text.take(m),
        ) > limit by {
            if m == text.len() {
                assert(text.take(m) =~= text);
            } else {
                assert(shorter.take(m) =~= text.take(m));
            }
        }
    }
}

/// A truncated text never takes more bytes than its limit.
pub proof fn lemma_truncated_within_limit(text: Seq<char>, limit: nat)
    ensures
        utf8_len(truncated(text, limit)) <= limit,
{
    let mark = TRUNCATION_SUFFIX@;
    reveal_strlit("...[truncated]");
    is_ascii_chars_encode_utf8(mark);
    if utf8_len(text) <= limit {
    } else if limit <= mark.len() {
        is_ascii_chars_encode_utf8(mark.take(limit as int));
    } else {
        let kept = longest_prefix(text, (limit - mark.len()) as nat);
        lemma_longest_prefix(text, (limit - mark.len()) as nat);
        lemma_encode_concat(kept, mark);
    }
}

/// A text that was cut ends in the mark wherever the mark fits.
pub proof fn lemma_truncated_ends_in_mark(text: Seq<char>, limit: nat)
    requires
        utf8_len(text) > limit,
        limit >= TRUNCATION_SUFFIX@.len(),
    ensures
        TRUNCATION_SUFFIX@.is_suffix_of(truncated(text, limit)),
{
}

/// Truncating twice at one limit is truncating once.
pub proof fn lemma_truncated_idempotent(text: Seq<char>, limit: nat)
    ensures
        truncated(truncated(text, limit), limit) == truncated(text, limit),
{
    lemma_truncated_within_limit(text, limit);
}

/// Where a part that begins a text does not fit, what is kept of the text is what is kept of the
/// part.
proof fn lemma_longest_prefix_of_part(text: Seq<char>, part: Seq<char>, limit: nat)
    requires
        part.is_prefix_of(text),
        utf8_len(part) > limit,
    ensures
        longest_prefix(text, limit) == longest_prefix(part, limit),
{
    let kept = longest_prefix(part, limit);
    lemma_longest_prefix(part, limit);
    assert(text.take(kept.len() as int) =~= kept);
    assert forall|m: int| kept.len() < m <= text.len() implies utf8_len(#[trigger] text.take(m))
        > limit by {
        if m <= part.len() {
            assert(text.take(m) =~= part.take(m));
        } else {
            assert(text.take(m) =~= part + text.subrange(part.len() as int, m));
            lemma_encode_concat(part, text.subrange(part.len() as int, m));
        }
    }
    lemma_longest_prefix_is(text, limit, kept.len() as int);
}

/// Truncating at one limit and then at another is truncating once at the smaller of the two.
pub proof fn lemma_truncated_at_two_limits(text: Seq<char>, first: nat, second: nat)
    ensures
        truncated(truncated(text, first), second) == truncated(
            text,
            if first <= second {
                first
            } else {
                second
            },
        ),
{
    let mark = TRUNCATION_SUFFIX@;
    reveal_strlit("...[truncated]");
    is_ascii_chars_encode_utf8(mark);
    lemma_truncated_within_limit(text, first);
    if second < first < utf8_len(text) {
        if first <= mark.len() {
            is_ascii_chars_encode_utf8(mark.take(first as int));
        } else {
            let kept = longest_prefix(text, (first - mark.len()) as nat);
            lemma_longest_prefix(text, (first - mark.len()) as nat);
            lemma_encode_concat(kept, mark);
            if second <= mark.len() {
                if utf8_len(kept + mark) <= second {
                    assert(kept.len() == 0) by {
                        if kept.len() > 0 {
                            assert(encode_utf8(kept).len() > 0);
                        }
                    }
                    assert(kept + mark =~= mark.take(second as int));
                }
            } else {
                let limit = (second - mark.len()) as nat;
                if utf8_len(kept) <= limit {
                    assert(text.take(kept.len() as int) =~= kept);
                    lemma_longest_prefix_is(text, limit, kept.len() as int);
                } else {
                    lemma_longest_prefix_of_part(text, kept, limit);
                    lemma_longest_prefix_of_part(kept + mark, kept, limit);
                }
            }
        }
    }
}

/// The character of a decimal digit.
pub open spec fn digit_char(digit: nat) -> char {
    (48 + digit) as char
}

/// A number in decimal, without leading zeros.
pub open spec fn decimal(number: nat) -> Seq<char>
    decreases number,
{
    if number < 10 {
        seq![digit_char(number)]
    } else {
        decimal(number / 10).push(digit_char(number % 10))
    }
}

fn digit_text(digit: u64) -> (text: &'static str)
    requires
        digit < 10,
    ensures
        text@ == seq![digit_char(digit as nat)],
{
    proof {
        reveal_strlit("0");
        reveal_strlit("1");
        reveal_strlit("2");
        reveal_strlit("3");
        reveal_strlit("4");
        reveal_strlit("5");
        reveal_strlit("6");
        reveal_strlit("7");
        reveal_strlit("8");
        reveal_strlit("9");
    }
    match digit {
        0 => "0",
        1 => "1",
        2 => "2",
        3 => "3",
        4 => "4",
        5 => "5",
        6 => "6",
        7 => "7",
        8 => "8",
        _ => "9",
    }
}

/// Writes `number` in decimal.
pub fn decimal_text(number: u64) -> (text: String)
    ensures
        text@ == decimal(number as nat),
    decreases number,
{
    if number < 10 {
        digit_text(number).to_owned()
    } else {
        let mut text = decimal_text(number / 10);
        text.append(digit_text(number % 10));
        text
    }
}

/// The decimal form of a number below a power of ten has no more digits than the power.
pub proof fn lemma_decimal_len(number: nat, digits: nat)
    requires
        digits >= 1,
        number < vstd::arithmetic::power::pow(10, digits),
    ensures
        1 <= decimal(number).len() <= digits,
        is_ascii_chars(decimal(number)),
    decreases number,
{
    vstd::arithmetic::power::lemma_pow1(10);
    if number >= 10 {
        if digits == 1 {
            assert(false);
        }
        let rest = (digits - 1) as nat;
        assert(vstd::arithmetic::power::pow(10, digits) == 10 * vstd::arithmetic::power::pow(
            10,
            rest,
        )) by {
            reveal(vstd::arithmetic::power::pow);
        }
        lemma_decimal_len(number / 10, rest);
    }
}

/// The decimal form of a number is made of digits.
pub proof fn lemma_decimal_digits(number: nat)
    ensures
        forall|i: int|
            #![trigger decimal(number)[i]]
            0 <= i < decimal(number).len() ==> 48 <= decimal(number)[i] as int <= 57,
    decreases number,
{
    if number >= 10 {
        lemma_decimal_digits(number / 10);
        assert forall|i: int| 0 <= i < decimal(number).len() implies 48 <= (
        #[trigger] decimal(number)[i]) as int <= 57 by {
            if i < decimal(number / 10).len() {
                assert(decimal(number)[i] == decimal(number / 10)[i]);
            }
        }
    }
}

/// Lines joined by line breaks.
pub open spec fn joined(lines: Seq<Seq<char>>) -> Seq<char>
    decreases lines.len(),
{
    if lines.len() == 0 {
        seq![]
    } else if lines.len() == 1 {
        lines[0]
    } else {
        joined(lines.drop_last()) + seq!['\n'] + lines.last()
    }
}

/// The texts that a vector of strings holds.
pub open spec fn texts(lines: Seq<String>) -> Seq<Seq<char>> {
    lines.map_values(|line: String| line@)
}

/// Joins `lines` by line breaks.
pub fn join_lines(lines: &Vec<String>) -> (text: String)
    ensures
        text@ == joined(texts(lines@)),
{
    proof {
        reveal_strlit("\n");
    }
    let mut text = String::new();
    let mut i: usize = 0;
    while i < lines.len()
        invariant
            i <= lines.len(),
            "\n"@ == seq!['\n'],
            text@ == joined(texts(lines@).take(i as int)),
        decreases lines.len() - i,
    {
        proof {
            let shown = texts(lines@).take(i + 1);
            assert(shown.drop_last() =~= texts(lines@).take(i as int));
            assert(shown.last() == lines@[i as int]@);
        }
        if i > 0 {
            text.append("\n");
        }
        text.append(lines[i].as_str());
        i = i + 1;
    }
    assert(texts(lines@).take(i as int) =~= texts(lines@));
    text
}

/// A character takes one byte below U+0080, two below U+0800, three below U+10000 and four from
/// there on; with [`lemma_encode_concat`], that measures every text.
pub proof fn lemma_utf8_len_of_character(c: char)
    ensures
        utf8_len(seq![]) == 0,
        (c as u32) < 0x80 ==> utf8_len(seq![c]) == 1,
        0x80 <= (c as u32) < 0x800 ==> utf8_len(seq![c]) == 2,
        0x800 <= (c as u32) < 0x10000 ==> utf8_len(seq![c]) == 3,
        0x10000 <= (c as u32) ==> utf8_len(seq![c]) == 4,
{
    broadcast use char_is_scalar;

    let one = seq![c];
    assert(one.drop_first() =~= seq![]);
    assert(encode_utf8(one) == encode_scalar(c as u32) + encode_utf8(one.drop_first()));
    assert(encode_utf8(Seq::<char>::empty()).len() == 0);
}

/// Whether `kept` is what is to be kept of `text` within `limit` bytes: the text itself where it
/// fits; otherwise a beginning of it and the mark, with no room left for one more character;
/// otherwise the beginning of the mark.
pub open spec fn keeps_what_fits(text: Seq<char>, limit: nat, kept: Seq<char>) -> bool {
    if encode_utf8(text).len() <= limit {
        kept == text
    } else if limit < 14 {
        kept == "...[truncated]"@.take(limit as int)
    } else {
        exists|count: int|
            0 <= count < text.len() && kept == #[trigger] text.take(count) + "...[truncated]"@
                && encode_utf8(kept).len() <= limit && encode_utf8(text.take(count + 1)).len() + 14
                > limit
    }
}

/// Truncating keeps what fits: nothing is lost of a text that does, and of one that does not as
/// much as leaves room for the mark is kept.
pub proof fn lemma_truncated_keeps_what_fits(text: Seq<char>, limit: nat)
    ensures
        keeps_what_fits(text, limit, truncated(text, limit)),
{
    let mark = TRUNCATION_SUFFIX@;
    reveal_strlit("...[truncated]");
    is_ascii_chars_encode_utf8(mark);
    lemma_truncated_within_limit(text, limit);
    if utf8_len(text) > limit && limit >= 14 {
        let kept = longest_prefix(text, (limit - 14) as nat);
        lemma_longest_prefix(text, (limit - 14) as nat);
        let count = kept.len() as int;
        assert(text.take(count) =~= kept);
        assert(text.take(text.len() as int) =~= text);
        assert(count < text.len());
        if limit == 14 {
            assert(count == 0) by {
                if kept.len() > 0 {
                    assert(encode_utf8(kept).len() > 0);
                }
            }
            assert(mark.take(14) =~= text.take(0) + mark);
        }
        assert(truncated(text, limit) =~= text.take(count) + mark);
        assert(utf8_len(text.take(count + 1)) > limit - 14);
    }
}

/// The number that a text of decimal digits stands for.
pub open spec fn numeral_value(text: Seq<char>) -> int
    decreases text.len(),
{
    if text.len() == 0 {
        0
    } else {
        numeral_value(text.drop_last()) * 10 + (text.last() as int - '0' as int)
    }
}

/// The decimal form of a number is made of the digits from `0` to `9`, stands for the number, and
/// begins with `0` only where the number is zero, which is written `0`.
pub proof fn lemma_decimal_reads_back(number: nat)
    ensures
        numeral_value(decimal(number)) == number,
        decimal(number).len() > 0,
        forall|i: int|
            #![trigger decimal(number)[i]]
            0 <= i < decimal(number).len() ==> '0' <= decimal(number)[i] <= '9',
        number > 0 ==> decimal(number)[0] != '0',
        number == 0 ==> decimal(number) == seq!['0'],
    decreases number,
{
    lemma_decimal_digits(number);
    let text = decimal(number);
    if number < 10 {
        assert(text.drop_last() =~= seq![]);
        assert(numeral_value(text.drop_last()) == 0);
    } else {
        lemma_decimal_reads_back(number / 10);
        assert(text.drop_last() =~= decimal(number / 10));
        assert(text[0] == decimal(number / 10)[0]);
    }
}

/// Two numbers with the same decimal form are the same number.
pub proof fn lemma_decimal_tells_numbers_apart(first: nat, second: nat)
    requires
        decimal(first) == decimal(second),
    ensures
        first == second,
{
    lemma_decimal_reads_back(first);
    lemma_decimal_reads_back(second);
}

/// Joining one line leaves it alone, and joining two lists of lines puts a line break between
/// what each of them comes to.
pub proof fn lemma_joined_lists(first: Seq<Seq<char>>, second: Seq<Seq<char>>)
    ensures
        first.len() == 0 ==> joined(first) == Seq::<char>::empty(),
        first.len() == 1 ==> joined(first) == first[0],
        first.len() > 0 && second.len() > 0 ==> joined(first + second) == joined(first) + "\n"@
            + joined(second),
    decreases second.len(),
{
    reveal_strlit("\n");
    assert("\n"@ =~= seq!['\n']);
    if first.len() > 0 && second.len() > 0 {
        let whole = first + second;
        assert(whole.drop_last() =~= first + second.drop_last());
        assert(whole.last() == second.last());
        if second.len() == 1 {
            assert(whole.drop_last() =~= first);
            assert(joined(second) == second[0]);
        } else {
            lemma_joined_lists(first, second.drop_last());
            assert(joined(whole) =~= joined(first) + seq!['\n'] + joined(second));
        }
    }
}

/// The texts of a vector of strings are those of its strings, in order.
pub proof fn lemma_texts(lines: Seq<String>)
    ensures
        texts(lines).len() == lines.len(),
        forall|i: int| 0 <= i < lines.len() ==> #[trigger] texts(lines)[i] == lines[i]@,
{
}

} // verus!
