//! What written text says when it is read again, and what it means for one text to hold another.

use vstd::prelude::*;

verus! {

/// The number that decimal digits say.
pub open spec fn number_said(digits: Seq<char>) -> int
    decreases digits.len(),
{
    if digits.len() == 0 {
        0
    } else {
        10 * number_said(digits.drop_last()) + (digits.last() as int - 48)
    }
}

/// A number written in decimal reads as that number, in digits only, and starts with a zero
/// only where it is zero.
pub proof fn a_written_number_reads_back(n: nat)
    ensures
        number_said(crate::text::decimal_text(n)) == n,
        crate::text::decimal_text(n).len() > 0,
        forall|i: int|
            0 <= i < crate::text::decimal_text(n).len() ==> 48
                <= #[trigger] crate::text::decimal_text(n)[i] as int <= 57,
        crate::text::decimal_text(n)[0] as int == 48 ==> n == 0,
    decreases n,
{
    a_digit_reads_back(n % 10);
    let last = crate::text::digit_text(n % 10);
    if n < 10 {
        a_digit_reads_back(n);
        let text = crate::text::decimal_text(n);
        assert(text.drop_last() =~= Seq::empty());
        assert(number_said(Seq::<char>::empty()) == 0);
    } else {
        a_written_number_reads_back(n / 10);
        let head = crate::text::decimal_text(n / 10);
        let text = crate::text::decimal_text(n);
        assert(text.drop_last() =~= head);
        assert(text.last() == last[0]);
        assert(text[0] == head[0]);
        assert forall|i: int| 0 <= i < text.len() implies 48 <= #[trigger] text[i] as int
            <= 57 by {
            if i < head.len() {
                assert(text[i] == head[i]);
            }
        }
    }
}

proof fn a_digit_reads_back(d: nat)
    requires
        d < 10,
    ensures
        crate::text::digit_text(d).len() == 1,
        crate::text::digit_text(d)[0] as int == 48 + d,
{
    reveal_strlit("0");
    reveal_strlit("1");
    reveal_strlit("2");
    reveal_strlit("3");
    reveal_strlit("4");
    reveal_strlit("5");
    reveal_strlit("6");
    reveal_strlit("7");
    reveal_strlit("8");
    reveal_strlit("9");
}

/// The value of a lower-case hexadecimal digit.
pub open spec fn hex_value(digit: char) -> int {
    if digit as int <= 57 {
        digit as int - 48
    } else {
        digit as int - 87
    }
}

/// Bytes written in hexadecimal read back byte by byte, two digits each, the high one first.
pub proof fn written_bytes_read_back(bytes: Seq<u8>, index: int)
    requires
        0 <= index < bytes.len(),
    ensures
        crate::text::hex_text(bytes).len() == 2 * bytes.len(),
        16 * hex_value(crate::text::hex_text(bytes)[2 * index]) + hex_value(
            crate::text::hex_text(bytes)[2 * index + 1],
        ) == bytes[index],
    decreases bytes.len(),
{
    let fewer = bytes.drop_last();
    let head = crate::text::hex_text(fewer);
    a_hex_digit_reads_back((bytes.last() / 16) as nat);
    a_hex_digit_reads_back((bytes.last() % 16) as nat);
    if fewer.len() > 0 {
        written_bytes_read_back(fewer, if index < fewer.len() {
            index
        } else {
            0
        });
    } else {
        assert(head.len() == 0);
    }
    let text = crate::text::hex_text(bytes);
    if index < fewer.len() {
        assert(text[2 * index] == head[2 * index]);
        assert(text[2 * index + 1] == head[2 * index + 1]);
    }
}

proof fn a_hex_digit_reads_back(d: nat)
    requires
        d < 16,
    ensures
        crate::text::hex_digit_text(d).len() == 1,
        hex_value(crate::text::hex_digit_text(d)[0]) == d,
{
    if d < 10 {
        a_digit_reads_back(d);
    }
    reveal_strlit("a");
    reveal_strlit("b");
    reveal_strlit("c");
    reveal_strlit("d");
    reveal_strlit("e");
    reveal_strlit("f");
}

/// A text starts with a prefix exactly if it is the prefix followed by some text, and ends with
/// a suffix exactly if it is some text followed by the suffix.
pub proof fn a_text_starts_and_ends_with_its_parts(text: Seq<char>, part: Seq<char>)
    ensures
        crate::text::has_prefix(text, part) <==> exists|rest: Seq<char>|
            text == #[trigger] (part + rest),
        crate::text::has_suffix(text, part) <==> exists|rest: Seq<char>|
            text == #[trigger] (rest + part),
{
    if crate::text::has_prefix(text, part) {
        let rest = text.skip(part.len() as int);
        assert(text =~= part + rest);
    }
    if exists|rest: Seq<char>| text == #[trigger] (part + rest) {
        let rest = choose|rest: Seq<char>| text == #[trigger] (part + rest);
        assert(text.take(part.len() as int) =~= part);
    }
    if crate::text::has_suffix(text, part) {
        let rest = text.take(text.len() - part.len());
        assert(text =~= rest + part);
    }
    if exists|rest: Seq<char>| text == #[trigger] (rest + part) {
        let rest = choose|rest: Seq<char>| text == #[trigger] (rest + part);
        assert(text.skip(text.len() - part.len()) =~= part);
    }
}

/// One text occurs in another exactly if the other is some text, then it, then some text.
pub proof fn a_text_occurs_between_its_surroundings(text: Seq<char>, needle: Seq<char>)
    ensures
        crate::text::occurs_in(text, needle) <==> exists|before: Seq<char>, after: Seq<char>|
            text == #[trigger] (before + needle + after),
{
    if crate::text::occurs_in(text, needle) {
        let at = choose|at: int| crate::text::occurs_at(text, needle, at);
        let before = text.take(at);
        let after = text.skip(at + needle.len());
        assert(text =~= before + needle + after) by {
            let joined = before + needle + after;
            assert forall|i: int| 0 <= i < text.len() implies text[i] == joined[i] by {
                if at <= i < at + needle.len() {
                    assert(text.subrange(at, at + needle.len())[i - at] == needle[i - at]);
                }
            }
        }
    }
    if exists|before: Seq<char>, after: Seq<char>| text == #[trigger] (before + needle + after) {
        let (before, after) = choose|before: Seq<char>, after: Seq<char>|
            text == #[trigger] (before + needle + after);
        let at = before.len() as int;
        assert(text.subrange(at, at + needle.len()) =~= needle);
        assert(crate::text::occurs_at(text, needle, at));
    }
}

} // verus!
