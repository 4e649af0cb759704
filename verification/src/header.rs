//! The grammar of the `Range` request header.
//!
//! A value asks for a byte range when it is text that begins with `bytes=`.
//! What follows is a list of ranges divided by commas, of which the first
//! one counts. A range is `-N`, the last `N` bytes, or `start-end`, where
//! `end` may be left out.

use vstd::prelude::*;
use vstd::slice::*;
use crate::decimal::{
    ascii, decimal, is_digit, lemma_decimal_digits, lemma_number_of_decimal, number, parse_number,
};

verus! {

/// A range as the header writes it, before it is held against a resource.
#[derive(Clone, Copy, PartialEq, Eq, Debug)]
pub enum RangeForm {
    /// `-N`: the last `length` bytes of the resource.
    Suffix { length: u64 },
    /// `start-end`: the bytes from `start` to `end`, both counted. Without
    /// an `end` the range runs for one chunk.
    Span { start: u64, end: Option<u64> },
}

/// Whether `b` may stand in a header value that is text: a visible ASCII
/// character, a space or a tab.
pub open spec fn is_visible(b: u8) -> bool {
    32 <= b < 127 || b == '\t' as u8
}

/// Whether a header value is text.
pub open spec fn is_text(value: Seq<u8>) -> bool {
    forall|i: int| 0 <= i < value.len() ==> is_visible(#[trigger] value[i])
}

/// The unit that a range request names before its ranges.
pub open spec fn unit_prefix() -> Seq<u8> {
    ascii("bytes="@)
}

/// Whether a header value begins with `bytes=`.
pub open spec fn has_unit_prefix(value: Seq<u8>) -> bool {
    value.len() >= unit_prefix().len() && value.take(unit_prefix().len() as int) == unit_prefix()
}

/// The list of ranges that a header value carries: what follows `bytes=` in
/// a value that is text. A value of another shape carries none.
pub open spec fn range_set(value: Seq<u8>) -> Option<Seq<u8>> {
    if is_text(value) && has_unit_prefix(value) {
        Some(value.skip(unit_prefix().len() as int))
    } else {
        None
    }
}

/// Whether `p` is where `b` first stands in `s`, or the length of `s` where
/// `b` does not stand in it.
pub open spec fn is_first_at(s: Seq<u8>, b: u8, p: int) -> bool {
    &&& 0 <= p <= s.len()
    &&& forall|i: int| 0 <= i < p ==> s[i] != b
    &&& p < s.len() ==> s[p] == b
}

/// The index of the first `b` in `s`; the length of `s` where it holds none.
pub open spec fn position(s: Seq<u8>, b: u8) -> int {
    choose|p: int| is_first_at(s, b, p)
}

/// The first range of a list: what stands before the first comma.
pub open spec fn first_range(set: Seq<u8>) -> Seq<u8> {
    set.take(position(set, ',' as u8))
}

/// The number that a token writes, or zero where it writes none.
pub open spec fn number_or_zero(token: Seq<u8>) -> u64 {
    match number(token) {
        Some(n) => n,
        None => 0,
    }
}

/// The form of one range. A range that begins with `-` is a suffix, and
/// what follows the `-` is its length. Any other range is divided at its
/// first `-` into a start and an end; without a `-` it has neither. A start
/// or a suffix length that is no number counts as zero, an end that is no
/// number as left out.
pub open spec fn range_form(range: Seq<u8>) -> RangeForm {
    if range.len() > 0 && range[0] == '-' as u8 {
        RangeForm::Suffix { length: number_or_zero(range.skip(1)) }
    } else {
        let dash = position(range, '-' as u8);
        if dash == range.len() {
            RangeForm::Span { start: 0, end: None }
        } else {
            RangeForm::Span {
                start: number_or_zero(range.take(dash)),
                end: number(range.skip(dash + 1)),
            }
        }
    }
}

/// The range that a header value asks for, if it asks for one.
pub open spec fn requested_range(value: Seq<u8>) -> Option<RangeForm> {
    match range_set(value) {
        Some(set) => Some(range_form(first_range(set))),
        None => None,
    }
}

/// There is one place where a byte first stands in a sequence.
pub proof fn lemma_position(s: Seq<u8>, b: u8, p: int)
    requires
        is_first_at(s, b, p),
    ensures
        position(s, b) == p,
{
    let q = position(s, b);
    assert(is_first_at(s, b, q));
    if q < p {
        assert(s[q] != b);
    } else if p < q {
        assert(s[p] != b);
    }
}

/// Finds the first `b` in `s`.
fn find(s: &[u8], b: u8) -> (p: usize)
    ensures
        p == position(s@, b),
        is_first_at(s@, b, p as int),
{
    let mut i: usize = 0;
    while i < s.len() && s[i] != b
        invariant
            i <= s.len(),
            forall|j: int| 0 <= j < i ==> s@[j] != b,
        decreases s.len() - i,
    {
        i += 1;
    }
    proof {
        lemma_position(s@, b, i as int);
    }
    i
}

/// Says whether a header value is text.
fn check_text(value: &[u8]) -> (ok: bool)
    ensures
        ok == is_text(value@),
{
    let mut i: usize = 0;
    while i < value.len()
        invariant
            i <= value.len(),
            forall|j: int| 0 <= j < i ==> is_visible(#[trigger] value@[j]),
        decreases value.len() - i,
    {
        let b = value[i];
        if !(b >= 32 && b < 127 || b == '\t' as u8) {
            return false;
        }
        i += 1;
    }
    true
}

/// Takes `bytes=` off the head of a header value that begins with it.
fn strip_unit_prefix(value: &[u8]) -> (rest: Option<&[u8]>)
    ensures
        match rest {
            Some(rest) => has_unit_prefix(value@) && rest@ == value@.skip(
                unit_prefix().len() as int,
            ),
            None => !has_unit_prefix(value@),
        },
{
    proof {
        reveal_strlit("bytes=");
    }
    let ghost prefix = unit_prefix();
    let ghost head = value@.take(6);
    if value.len() >= 6 && value[0] == 'b' as u8 && value[1] == 'y' as u8 && value[2] == 't' as u8
        && value[3] == 'e' as u8 && value[4] == 's' as u8 && value[5] == '=' as u8 {
        assert(head =~= prefix);
        Some(slice_subrange(value, 6, value.len()))
    } else {
        proof {
            if value@.len() >= 6 {
                assert(prefix[0] == 'b' as u8 && prefix[1] == 'y' as u8 && prefix[2] == 't' as u8);
                assert(prefix[3] == 'e' as u8 && prefix[4] == 's' as u8 && prefix[5] == '=' as u8);
            }
        }
        None
    }
}

/// Reads one range.
pub fn parse_range(range: &[u8]) -> (form: RangeForm)
    ensures
        form == range_form(range@),
{
    if range.len() > 0 && range[0] == '-' as u8 {
        let length = match parse_number(slice_subrange(range, 1, range.len())) {
            Some(n) => n,
            None => 0,
        };
        RangeForm::Suffix { length }
    } else {
        let dash = find(range, '-' as u8);
        if dash == range.len() {
            RangeForm::Span { start: 0, end: None }
        } else {
            let start = match parse_number(slice_subrange(range, 0, dash)) {
                Some(n) => n,
                None => 0,
            };
            let end = parse_number(slice_subrange(range, dash + 1, range.len()));
            RangeForm::Span { start, end }
        }
    }
}

/// Reads the value of a `Range` header: the range that it asks for, or
/// `None` where the value asks for no byte range.
pub fn parse_range_header(value: &[u8]) -> (form: Option<RangeForm>)
    ensures
        form == requested_range(value@),
{
    if !check_text(value) {
        return None;
    }
    match strip_unit_prefix(value) {
        Some(set) => {
            let comma = find(set, ',' as u8);
            Some(parse_range(slice_subrange(set, 0, comma)))
        },
        None => None,
    }
}

/// The text `bytes=`, a number, `-` and a second number asks for the range
/// from the first number to the second.
pub proof fn lemma_span_is_read(value: Seq<u8>, start: u64, end: u64)
    requires
        value == ascii("bytes="@ + decimal(start as nat) + "-"@ + decimal(end as nat)),
    ensures
        requested_range(value) == Some(RangeForm::Span { start, end: Some(end) }),
{
    reveal_strlit("-");
    let first = ascii(decimal(start as nat));
    let second = ascii(decimal(end as nat));
    let range = first + seq!['-' as u8] + second;
    lemma_decimal_digits(start as nat);
    lemma_decimal_digits(end as nat);
    lemma_number_of_decimal(start);
    lemma_number_of_decimal(end);
    assert(value =~= unit_prefix() + range);
    lemma_set_is_carried(value, range);
    lemma_single_range(range);
    lemma_position(range, '-' as u8, first.len() as int);
    assert(range.take(first.len() as int) =~= first);
    assert(range.skip(first.len() as int + 1) =~= second);
}

/// The text `bytes=`, a number and `-` asks for a range that begins at the
/// number and has no end of its own.
pub proof fn lemma_open_span_is_read(value: Seq<u8>, start: u64)
    requires
        value == ascii("bytes="@ + decimal(start as nat) + "-"@),
    ensures
        requested_range(value) == Some(RangeForm::Span { start, end: None }),
{
    reveal_strlit("-");
    let first = ascii(decimal(start as nat));
    let range = first + seq!['-' as u8];
    lemma_decimal_digits(start as nat);
    lemma_number_of_decimal(start);
    assert(value =~= unit_prefix() + range);
    lemma_set_is_carried(value, range);
    lemma_single_range(range);
    lemma_position(range, '-' as u8, first.len() as int);
    assert(range.take(first.len() as int) =~= first);
}

/// The text `bytes=-` and a number asks for the last bytes of the resource,
/// as many as the number says.
pub proof fn lemma_suffix_is_read(value: Seq<u8>, length: u64)
    requires
        value == ascii("bytes=-"@ + decimal(length as nat)),
    ensures
        requested_range(value) == Some(RangeForm::Suffix { length }),
{
    reveal_strlit("bytes=");
    reveal_strlit("bytes=-");
    let digits = ascii(decimal(length as nat));
    let range = seq!['-' as u8] + digits;
    lemma_decimal_digits(length as nat);
    lemma_number_of_decimal(length);
    assert(value =~= unit_prefix() + range);
    lemma_set_is_carried(value, range);
    lemma_single_range(range);
    assert(range.skip(1) =~= digits);
}

/// Whether every byte of `s` is a digit or `-`.
spec fn plain(s: Seq<u8>) -> bool {
    forall|i: int| 0 <= i < s.len() ==> is_digit(#[trigger] s[i]) || s[i] == '-' as u8
}

/// A value made of `bytes=` and of digits and `-` carries what follows
/// `bytes=`.
proof fn lemma_set_is_carried(value: Seq<u8>, range: Seq<u8>)
    requires
        value == unit_prefix() + range,
        plain(range),
    ensures
        range_set(value) == Some(range),
{
    reveal_strlit("bytes=");
    let prefix = unit_prefix();
    assert forall|i: int| 0 <= i < value.len() implies is_visible(#[trigger] value[i]) by {
        if i >= 6 {
            assert(value[i] == range[i - 6]);
        }
    }
    assert(value.take(6) =~= prefix);
}

/// A list of digits and `-` is one range.
proof fn lemma_single_range(range: Seq<u8>)
    requires
        plain(range),
    ensures
        first_range(range) == range,
{
    lemma_position(range, ',' as u8, range.len() as int);
}

} // verus!
