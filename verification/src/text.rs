//! Text: numbers, identifiers, quotations, white space, and the words of a request line.

use vstd::prelude::*;
use vstd::string::*;

verus! {

/// The character of a decimal digit.
pub open spec fn digit(value: nat) -> char {
    if value == 0 {
        '0'
    } else if value == 1 {
        '1'
    } else if value == 2 {
        '2'
    } else if value == 3 {
        '3'
    } else if value == 4 {
        '4'
    } else if value == 5 {
        '5'
    } else if value == 6 {
        '6'
    } else if value == 7 {
        '7'
    } else if value == 8 {
        '8'
    } else {
        '9'
    }
}

/// The decimal notation of a number, without leading zeros.
pub open spec fn decimal(value: nat) -> Seq<char>
    decreases value,
{
    if value < 10 {
        seq![digit(value)]
    } else {
        decimal(value / 10).push(digit(value % 10))
    }
}

/// Returns the text of a decimal digit.
fn digit_text(value: usize) -> (text: &'static str)
    requires
        value < 10,
    ensures
        text@ == seq![digit(value as nat)],
{
    proof {
        reveal_strlit("0");
        reveal_strlit("1");
        reveal_strlit("2");
        reveal_strlit("3");
        reveal_strlit("4");
        reveal_strlit("5");
        reveal_strlit("6");
        reveal_strlit("7");
        reveal_strlit("8");
        reveal_strlit("9");
    }
    match value {
        0 => "0",
        1 => "1",
        2 => "2",
        3 => "3",
        4 => "4",
        5 => "5",
        6 => "6",
        7 => "7",
        8 => "8",
        _ => "9",
    }
}

/// Returns the decimal notation of a number.
pub fn decimal_text(value: usize) -> (text: String)
    ensures
        text@ == decimal(value as nat),
    decreases value,
{
    if value < 10 {
        digit_text(value).to_owned()
    } else {
        let mut text = decimal_text(value / 10);
        text.append(digit_text(value % 10));
        text
    }
}

/// The character of a hexadecimal digit.
pub open spec fn hex_digit(value: nat) -> char {
    if value < 10 {
        digit(value)
    } else if value == 10 {
        'a'
    } else if value == 11 {
        'b'
    } else if value == 12 {
        'c'
    } else if value == 13 {
        'd'
    } else if value == 14 {
        'e'
    } else {
        'f'
    }
}

/// The hexadecimal digit of an identifier at a place, counted from the most significant one.
pub open spec fn nibble(id: u128, place: int) -> nat {
    ((id >> ((124 - 4 * place) as u128)) & 0xf) as nat
}

/// The notation of an identifier: its 32 hexadecimal digits in groups of 8, 4, 4, 4 and 12.
pub open spec fn id_notation(id: u128) -> Seq<char> {
    Seq::new(
        36,
        |i: int|
            if i == 8 || i == 13 || i == 18 || i == 23 {
                '-'
            } else if i < 8 {
                hex_digit(nibble(id, i))
            } else if i < 13 {
                hex_digit(nibble(id, i - 1))
            } else if i < 18 {
                hex_digit(nibble(id, i - 2))
            } else if i < 23 {
                hex_digit(nibble(id, i - 3))
            } else {
                hex_digit(nibble(id, i - 4))
            },
    )
}

/// Writes an identifier as `uuid::Uuid` does for debugging.
///
/// Trusted: the text is the hyphenated notation with lower case digits, most significant digit
/// first.
#[verifier::external_body]
pub(crate) fn id_text(id: u128) -> (text: String)
    ensures
        text@ == id_notation(id),
{
    format!("{:?}", uuid::Uuid::from_u128(id))
}

/// A text as the standard library writes it for debugging: in quotes and escaped.
pub uninterp spec fn quotation(text: Seq<char>) -> Seq<char>;

/// Writes a text as `str` does for debugging.
///
/// Trusted: what is written depends on the text alone. Which characters are escaped, and how,
/// is left to the named result.
#[verifier::external_body]
pub(crate) fn quote(text: &str) -> (quoted: String)
    ensures
        quoted@ == quotation(text@),
{
    format!("{:?}", text)
}

/// The characters with the Unicode property `White_Space`.
pub open spec fn is_white_space(c: char) -> bool {
    let code = c as u32;
    ||| 0x9 <= code <= 0xd
    ||| code == 0x20
    ||| code == 0x85
    ||| code == 0xa0
    ||| code == 0x1680
    ||| 0x2000 <= code <= 0x200a
    ||| code == 0x2028
    ||| code == 0x2029
    ||| code == 0x202f
    ||| code == 0x205f
    ||| code == 0x3000
}

/// Returns whether a character is white space.
pub fn white_space(c: char) -> (blank: bool)
    ensures
        blank == is_white_space(c),
{
    let code: u32 = c as u32;
    (0x9 <= code && code <= 0xd) || code == 0x20 || code == 0x85 || code == 0xa0 || code == 0x1680
        || (0x2000 <= code && code <= 0x200a) || code == 0x2028 || code == 0x2029 || code
        == 0x202f || code == 0x205f || code == 0x3000
}

/// How many characters at the front of `text` are white space (or, with `blank` false, are
/// not) before the first one that differs.
pub open spec fn prefix_len(text: Seq<char>, blank: bool) -> nat
    decreases text.len(),
{
    if text.len() > 0 && is_white_space(text[0]) == blank {
        1 + prefix_len(text.drop_first(), blank)
    } else {
        0
    }
}

/// The maximal runs of characters that are not white space, in order.
pub open spec fn words(text: Seq<char>) -> Seq<Seq<char>>
    decreases text.len(),
    via words_decreases
{
    let rest = text.skip(prefix_len(text, true) as int);
    if rest.len() == 0 {
        seq![]
    } else {
        let word = prefix_len(rest, false);
        seq![rest.take(word as int)] + words(rest.skip(word as int))
    }
}

#[via_fn]
proof fn words_decreases(text: Seq<char>) {
    lemma_prefix_len(text, true);
    let rest = text.skip(prefix_len(text, true) as int);
    if rest.len() > 0 {
        lemma_prefix_len(rest, false);
        lemma_prefix_end(text, true);
        assert(rest[0] == text[prefix_len(text, true) as int]);
    }
}

proof fn lemma_prefix_len(text: Seq<char>, blank: bool)
    ensures
        prefix_len(text, blank) <= text.len(),
    decreases text.len(),
{
    if text.len() > 0 && is_white_space(text[0]) == blank {
        lemma_prefix_len(text.drop_first(), blank);
    }
}

proof fn lemma_prefix_end(text: Seq<char>, blank: bool)
    ensures
        prefix_len(text, blank) <= text.len(),
        prefix_len(text, blank) < text.len() ==> is_white_space(
            text[prefix_len(text, blank) as int],
        ) != blank,
    decreases text.len(),
{
    if text.len() > 0 && is_white_space(text[0]) == blank {
        lemma_prefix_end(text.drop_first(), blank);
    }
}

/// A prefix of `taken` characters of one kind, followed by the end or by one of the other
/// kind, is the longest one.
proof fn lemma_prefix_is(text: Seq<char>, blank: bool, taken: int)
    requires
        0 <= taken <= text.len(),
        forall|i: int| 0 <= i < taken ==> is_white_space(#[trigger] text[i]) == blank,
        taken < text.len() ==> is_white_space(text[taken]) != blank,
    ensures
        prefix_len(text, blank) == taken,
    decreases text.len(),
{
    if taken > 0 {
        let tail = text.drop_first();
        assert forall|i: int| 0 <= i < taken - 1 implies is_white_space(#[trigger] tail[i])
            == blank by {
            assert(tail[i] == text[i + 1]);
        }
        assert(is_white_space(text[0]) == blank);
        lemma_prefix_is(tail, blank, taken - 1);
    }
}

/// The second word of a request, or `/` where there is none.
pub open spec fn request_target(text: Seq<char>) -> Seq<char> {
    if words(text).len() > 1 {
        words(text)[1]
    } else {
        "/"@
    }
}

/// Law: in a request line the target is what stands between the method and the white space
/// after it.
pub proof fn law_request_line(method: Seq<char>, target: Seq<char>, blank: char, rest: Seq<char>)
    requires
        method.len() > 0,
        target.len() > 0,
        forall|i: int| 0 <= i < method.len() ==> !is_white_space(#[trigger] method[i]),
        forall|i: int| 0 <= i < target.len() ==> !is_white_space(#[trigger] target[i]),
        is_white_space(blank),
        rest.len() > 0 ==> is_white_space(rest[0]),
    ensures
        request_target(method + seq![blank] + target + rest) == target,
{
    let line = method + seq![blank] + target + rest;
    assert(line[0] == method[0]);
    lemma_prefix_is(line, true, 0);
    assert(line.skip(0) =~= line);
    assert forall|i: int| 0 <= i < method.len() implies is_white_space(#[trigger] line[i])
        == false by {
        assert(line[i] == method[i]);
    }
    assert(line[method.len() as int] == blank);
    lemma_prefix_is(line, false, method.len() as int);
    let tail = line.skip(method.len() as int);
    assert(tail =~= seq![blank] + target + rest);
    assert(tail[0] == blank);
    assert(tail[1] == target[0]);
    lemma_prefix_is(tail, true, 1);
    let second = tail.skip(1);
    assert(second =~= target + rest);
    assert forall|i: int| 0 <= i < target.len() implies is_white_space(#[trigger] second[i])
        == false by {
        assert(second[i] == target[i]);
    }
    if rest.len() > 0 {
        assert(second[target.len() as int] == rest[0]);
    }
    lemma_prefix_is(second, false, target.len() as int);
    assert(second.take(target.len() as int) =~= target);
    assert(words(tail) == seq![target] + words(second.skip(target.len() as int)));
    assert(words(line) == seq![line.take(method.len() as int)] + words(tail));
    assert(words(line)[1] == words(tail)[0]);
}

/// Returns the index of the first character from `start` on whose kind is not `blank`.
fn skip_run(chars: &Vec<char>, start: usize, blank: bool) -> (end: usize)
    requires
        start <= chars@.len(),
    ensures
        start <= end <= chars@.len(),
        end - start == prefix_len(chars@.skip(start as int), blank),
{
    let mut end: usize = start;
    while end < chars.len() && white_space(chars[end]) == blank
        invariant
            start <= end <= chars@.len(),
            forall|i: int| start <= i < end ==> is_white_space(#[trigger] chars@[i]) == blank,
        ensures
            start <= end <= chars@.len(),
            forall|i: int| start <= i < end ==> is_white_space(#[trigger] chars@[i]) == blank,
            end < chars@.len() ==> is_white_space(chars@[end as int]) != blank,
        decreases chars@.len() - end,
    {
        end += 1;
    }
    proof {
        lemma_prefix_is(chars@.skip(start as int), blank, end - start);
    }
    end
}

/// Returns the characters of a text.
fn characters(text: &str) -> (chars: Vec<char>)
    ensures
        chars@ == text@,
{
    let mut chars: Vec<char> = Vec::new();
    for c in iter: text.chars()
        invariant
            chars@ == iter.seq().take(iter.index() as int),
            iter.seq() == text@,
    {
        chars.push(c);
    }
    chars
}

/// Returns the second word of a request, or `/` where there is none.
pub fn target_of(text: &str) -> (target: String)
    ensures
        target@ == request_target(text@),
{
    let chars = characters(text);
    let first: usize = skip_run(&chars, 0, true);
    let gap: usize = skip_run(&chars, first, false);
    let start: usize = skip_run(&chars, gap, true);
    let end: usize = skip_run(&chars, start, false);
    proof {
        let rest = text@.skip(first as int);
        assert(text@.skip(0) =~= text@);
        assert(rest.skip(gap - first) =~= text@.skip(gap as int));
        let second = text@.skip(gap as int);
        assert(second.skip(start - gap) =~= text@.skip(start as int));
        let third = text@.skip(start as int);
        assert(third.take(end - start) =~= text@.subrange(start as int, end as int));
        assert(words(text@).len() == if rest.len() == 0 { 0 } else { 1 + words(second).len() });
    }
    if start < chars.len() {
        text.substring_char(start, end).to_owned()
    } else {
        "/".to_owned()
    }
}

/// The number that some decimal digits stand for.
pub open spec fn number(digits: Seq<char>) -> nat
    decreases digits.len(),
{
    if digits.len() == 0 {
        0
    } else {
        (10 * number(digits.drop_last()) + (digits.last() as u32 - '0' as u32)) as nat
    }
}

/// Law: the notation of a number consists of decimal digits, has no needless zero in front, and
/// stands for that number.
pub proof fn law_decimal_notation(value: nat)
    ensures
        number(decimal(value)) == value,
        decimal(value).len() > 0,
        forall|i: int|
            0 <= i < decimal(value).len() ==> '0' as u32 <= (#[trigger] decimal(value)[i]) as u32
                <= '9' as u32,
        value > 0 ==> decimal(value)[0] != '0',
        value < 10 ==> decimal(value).len() == 1,
    decreases value,
{
    let text = decimal(value);
    if value < 10 {
        assert(text.drop_last() =~= seq![]);
        assert(number(text.drop_last()) == 0);
    } else {
        law_decimal_notation(value / 10);
        assert(text.drop_last() =~= decimal(value / 10));
    }
}

/// Law: the notation of an identifier has 36 characters, hyphens in four places and hexadecimal
/// digits in lower case in all others.
pub proof fn law_id_notation(id: u128)
    ensures
        id_notation(id).len() == 36,
        forall|i: int|
            0 <= i < 36 ==> ((#[trigger] id_notation(id)[i]) == '-') == (i == 8 || i == 13 || i
                == 18 || i == 23),
        forall|i: int|
            0 <= i < 36 && i != 8 && i != 13 && i != 18 && i != 23 ==> {
                ||| '0' as u32 <= (#[trigger] id_notation(id)[i]) as u32 <= '9' as u32
                ||| 'a' as u32 <= id_notation(id)[i] as u32 <= 'f' as u32
            },
{
}

/// Law: the target of a request is its second run of characters that are not white space,
/// whatever white space surrounds it, and a slash where there are fewer than two.
pub proof fn law_request_target(
    lead: Seq<char>,
    method: Seq<char>,
    gap: Seq<char>,
    target: Seq<char>,
    rest: Seq<char>,
)
    requires
        forall|i: int| 0 <= i < lead.len() ==> is_white_space(#[trigger] lead[i]),
        forall|i: int| 0 <= i < method.len() ==> !is_white_space(#[trigger] method[i]),
        forall|i: int| 0 <= i < gap.len() ==> is_white_space(#[trigger] gap[i]),
        forall|i: int| 0 <= i < target.len() ==> !is_white_space(#[trigger] target[i]),
        rest.len() > 0 ==> is_white_space(rest[0]),
        method.len() > 0,
        gap.len() > 0,
        target.len() > 0,
    ensures
        request_target(lead + method + gap + target + rest) == target,
        request_target(lead + method + gap) == "/"@,
        request_target(lead + method) == "/"@,
        request_target(lead) == "/"@,
{
    let second = target + rest;
    lemma_word(gap, target, rest);
    lemma_word(lead, method, gap + second);
    assert(lead + method + (gap + second) =~= lead + method + gap + target + rest);
    assert(gap + target + rest =~= gap + second);
    lemma_word(lead, method, gap);
    lemma_no_word(gap);
    lemma_word(lead, method, seq![]);
    assert(lead + method + seq![] =~= lead + method);
    lemma_no_word(seq![]);
    lemma_no_word(lead);
}

/// A text of white space has no words.
proof fn lemma_no_word(text: Seq<char>)
    requires
        forall|i: int| 0 <= i < text.len() ==> is_white_space(#[trigger] text[i]),
    ensures
        words(text) == Seq::<Seq<char>>::empty(),
{
    lemma_prefix_is(text, true, text.len() as int);
}

/// The first word of a text stands behind white space and before white space or the end.
proof fn lemma_word(lead: Seq<char>, word: Seq<char>, rest: Seq<char>)
    requires
        forall|i: int| 0 <= i < lead.len() ==> is_white_space(#[trigger] lead[i]),
        forall|i: int| 0 <= i < word.len() ==> !is_white_space(#[trigger] word[i]),
        rest.len() > 0 ==> is_white_space(rest[0]),
        word.len() > 0,
    ensures
        words(lead + word + rest) == seq![word] + words(rest),
{
    let text = lead + word + rest;
    assert forall|i: int| 0 <= i < lead.len() implies is_white_space(#[trigger] text[i])
        == true by {
        assert(text[i] == lead[i]);
    }
    assert(text[lead.len() as int] == word[0]);
    lemma_prefix_is(text, true, lead.len() as int);
    let tail = text.skip(lead.len() as int);
    assert(tail =~= word + rest);
    assert forall|i: int| 0 <= i < word.len() implies is_white_space(#[trigger] tail[i])
        == false by {
        assert(tail[i] == word[i]);
    }
    if rest.len() > 0 {
        assert(tail[word.len() as int] == rest[0]);
    }
    lemma_prefix_is(tail, false, word.len() as int);
    assert(tail.take(word.len() as int) =~= word);
    assert(tail.skip(word.len() as int) =~= rest);
}

/// Law: white space is what Unicode counts as such: five controls, the space, the next-line and
/// no-break characters, and the separators beyond the first 256 characters.
pub proof fn law_white_space(c: char)
    ensures
        is_white_space(c) == ({
            let code = c as u32;
            ||| c == '\t' || c == '\n' || code == 0xb || code == 0xc || c == '\r' || c == ' '
            ||| code == 0x85 || code == 0xa0 || code == 0x1680
            ||| code >= 0x2000 && code < 0x200b
            ||| code == 0x2028 || code == 0x2029 || code == 0x202f || code == 0x205f || code
                == 0x3000
        }),
{
}

/// Law: two identifiers with the same notation are the same.
pub proof fn law_id_notation_is_exact(one: u128, other: u128)
    requires
        id_notation(one) == id_notation(other),
    ensures
        one == other,
{
    lemma_same_digit(one, other, 0, 0);
    lemma_same_digit(one, other, 1, 1);
    lemma_same_digit(one, other, 2, 2);
    lemma_same_digit(one, other, 3, 3);
    lemma_same_digit(one, other, 4, 4);
    lemma_same_digit(one, other, 5, 5);
    lemma_same_digit(one, other, 6, 6);
    lemma_same_digit(one, other, 7, 7);
    lemma_same_digit(one, other, 8, 9);
    lemma_same_digit(one, other, 9, 10);
    lemma_same_digit(one, other, 10, 11);
    lemma_same_digit(one, other, 11, 12);
    lemma_same_digit(one, other, 12, 14);
    lemma_same_digit(one, other, 13, 15);
    lemma_same_digit(one, other, 14, 16);
    lemma_same_digit(one, other, 15, 17);
    lemma_same_digit(one, other, 16, 19);
    lemma_same_digit(one, other, 17, 20);
    lemma_same_digit(one, other, 18, 21);
    lemma_same_digit(one, other, 19, 22);
    lemma_same_digit(one, other, 20, 24);
    lemma_same_digit(one, other, 21, 25);
    lemma_same_digit(one, other, 22, 26);
    lemma_same_digit(one, other, 23, 27);
    lemma_same_digit(one, other, 24, 28);
    lemma_same_digit(one, other, 25, 29);
    lemma_same_digit(one, other, 26, 30);
    lemma_same_digit(one, other, 27, 31);
    lemma_same_digit(one, other, 28, 32);
    lemma_same_digit(one, other, 29, 33);
    lemma_same_digit(one, other, 30, 34);
    lemma_same_digit(one, other, 31, 35);
    assert(one == other) by (bit_vector)
        requires
            (one >> 124u128) & 0xf == (other >> 124u128) & 0xf,
            (one >> 120u128) & 0xf == (other >> 120u128) & 0xf,
            (one >> 116u128) & 0xf == (other >> 116u128) & 0xf,
            (one >> 112u128) & 0xf == (other >> 112u128) & 0xf,
            (one >> 108u128) & 0xf == (other >> 108u128) & 0xf,
            (one >> 104u128) & 0xf == (other >> 104u128) & 0xf,
            (one >> 100u128) & 0xf == (other >> 100u128) & 0xf,
            (one >> 96u128) & 0xf == (other >> 96u128) & 0xf,
            (one >> 92u128) & 0xf == (other >> 92u128) & 0xf,
            (one >> 88u128) & 0xf == (other >> 88u128) & 0xf,
            (one >> 84u128) & 0xf == (other >> 84u128) & 0xf,
            (one >> 80u128) & 0xf == (other >> 80u128) & 0xf,
            (one >> 76u128) & 0xf == (other >> 76u128) & 0xf,
            (one >> 72u128) & 0xf == (other >> 72u128) & 0xf,
            (one >> 68u128) & 0xf == (other >> 68u128) & 0xf,
            (one >> 64u128) & 0xf == (other >> 64u128) & 0xf,
            (one >> 60u128) & 0xf == (other >> 60u128) & 0xf,
            (one >> 56u128) & 0xf == (other >> 56u128) & 0xf,
            (one >> 52u128) & 0xf == (other >> 52u128) & 0xf,
            (one >> 48u128) & 0xf == (other >> 48u128) & 0xf,
            (one >> 44u128) & 0xf == (other >> 44u128) & 0xf,
            (one >> 40u128) & 0xf == (other >> 40u128) & 0xf,
            (one >> 36u128) & 0xf == (other >> 36u128) & 0xf,
            (one >> 32u128) & 0xf == (other >> 32u128) & 0xf,
            (one >> 28u128) & 0xf == (other >> 28u128) & 0xf,
            (one >> 24u128) & 0xf == (other >> 24u128) & 0xf,
            (one >> 20u128) & 0xf == (other >> 20u128) & 0xf,
            (one >> 16u128) & 0xf == (other >> 16u128) & 0xf,
            (one >> 12u128) & 0xf == (other >> 12u128) & 0xf,
            (one >> 8u128) & 0xf == (other >> 8u128) & 0xf,
            (one >> 4u128) & 0xf == (other >> 4u128) & 0xf,
            (one >> 0u128) & 0xf == (other >> 0u128) & 0xf,
    ;
}

proof fn lemma_same_digit(one: u128, other: u128, place: int, position: int)
    requires
        id_notation(one) == id_notation(other),
        0 <= place < 32,
        position == place + (if place < 8 {
            0int
        } else if place < 12 {
            1
        } else if place < 16 {
            2
        } else if place < 20 {
            3
        } else {
            4
        }),
    ensures
        (one >> ((124 - 4 * place) as u128)) & 0xf == (other >> ((124 - 4 * place) as u128)) & 0xf,
{
    let shift = (124 - 4 * place) as u128;
    assert(id_notation(one)[position] == hex_digit(nibble(one, place)));
    assert(id_notation(other)[position] == hex_digit(nibble(other, place)));
    lemma_hex_digit(nibble(one, place), nibble(other, place));
    assert((one >> shift) & 0xf < 16) by (bit_vector);
    assert((other >> shift) & 0xf < 16) by (bit_vector);
}

proof fn lemma_hex_digit(one: nat, other: nat)
    ensures
        one < 16 && other < 16 && hex_digit(one) == hex_digit(other) ==> one == other,
{
}

} // verus!
