//! Separated fields and decimal numbers of ASCII reports.
use vstd::prelude::*;
use vstd::slice::slice_subrange;

verus! {

/// The index of the first `separator` in `s` at or after `from`, or the length of `s`.
pub open spec fn field_end(s: Seq<u8>, separator: u8, from: int) -> int
    decreases s.len() - from,
{
    if from < 0 || from >= s.len() || s[from] == separator {
        from
    } else {
        field_end(s, separator, from + 1)
    }
}

/// The pieces of `s` between its separators. There is always at least one, perhaps empty.
pub open spec fn split(s: Seq<u8>, separator: u8) -> Seq<Seq<u8>>
    decreases s.len(),
{
    let end = field_end(s, separator, 0);
    if 0 <= end < s.len() {
        seq![s.take(end)] + split(s.skip(end + 1), separator)
    } else {
        seq![s]
    }
}

/// Whether `s` is a nonempty string of decimal digits.
pub open spec fn is_decimal(s: Seq<u8>) -> bool {
    &&& s.len() > 0
    &&& forall|i: int| 0 <= i < s.len() ==> 0x30 <= #[trigger] s[i] <= 0x39
}

/// The value of a string of decimal digits.
pub open spec fn decimal_value(s: Seq<u8>) -> int
    decreases s.len(),
{
    if s.len() == 0 {
        0
    } else {
        decimal_value(s.drop_last()) * 10 + (s.last() - 0x30)
    }
}

/// The number that `s` spells in decimal, with an optional leading plus sign, if it spells one
/// and the number is at most `maximum`.
pub open spec fn number(s: Seq<u8>, maximum: int) -> Option<int> {
    let digits = if s.len() > 0 && s[0] == 0x2b {
        s.skip(1)
    } else {
        s
    };
    if is_decimal(digits) && decimal_value(digits) <= maximum {
        Some(decimal_value(digits))
    } else {
        None
    }
}

proof fn lemma_field_end(s: Seq<u8>, separator: u8, from: int, end: int)
    requires
        0 <= from <= end <= s.len(),
        forall|i: int| from <= i < end ==> s[i] != separator,
        end < s.len() ==> s[end] == separator,
    ensures
        field_end(s, separator, from) == end,
    decreases end - from,
{
    if from < end {
        lemma_field_end(s, separator, from + 1, end);
    }
}

proof fn lemma_decimal_prefix(s: Seq<u8>, n: int)
    requires
        0 <= n <= s.len(),
        forall|i: int| 0 <= i < s.len() ==> 0x30 <= #[trigger] s[i] <= 0x39,
    ensures
        0 <= decimal_value(s.take(n)) <= decimal_value(s),
    decreases s.len(),
{
    if n == s.len() {
        assert(s.take(n) == s);
        if n > 0 {
            lemma_decimal_prefix(s.drop_last(), n - 1);
            assert(s.drop_last().take(n - 1) == s.drop_last());
        }
    } else {
        lemma_decimal_prefix(s.drop_last(), n);
        assert(s.drop_last().take(n) == s.take(n));
    }
}

/// A string without a separator is one piece.
pub proof fn lemma_split_whole(s: Seq<u8>, separator: u8)
    requires
        forall|i: int| 0 <= i < s.len() ==> s[i] != separator,
    ensures
        split(s, separator) == seq![s],
{
    lemma_field_end(s, separator, 0, s.len() as int);
}

/// A separator after a piece without one starts the remaining pieces.
pub proof fn lemma_split_first(first: Seq<u8>, separator: u8, rest: Seq<u8>)
    requires
        forall|i: int| 0 <= i < first.len() ==> first[i] != separator,
    ensures
        split(first + seq![separator] + rest, separator) == seq![first] + split(rest, separator),
{
    let s = first + seq![separator] + rest;
    assert forall|i: int| 0 <= i < first.len() implies s[i] != separator by {
        assert(s[i] == first[i]);
    }
    assert(s[first.len() as int] == separator);
    lemma_field_end(s, separator, 0, first.len() as int);
    assert(s.take(first.len() as int) == first);
    assert(s.skip(first.len() as int + 1) == rest);
}

/// Splits `s` at each `separator`.
pub fn split_fields(s: &[u8], separator: u8) -> (pieces: Vec<&[u8]>)
    ensures
        pieces@.len() == split(s@, separator).len(),
        forall|i: int|
            0 <= i < pieces@.len() ==> (#[trigger] pieces@[i])@ == split(s@, separator)[i],
{
    let mut pieces: Vec<&[u8]> = Vec::new();
    let mut start: usize = 0;
    let mut i: usize = 0;
    assert(s@.skip(0) == s@);
    while i < s.len()
        invariant
            start <= i <= s@.len(),
            forall|j: int| start <= j < i ==> s@[j] != separator,
            pieces@.len() + split(s@.skip(start as int), separator).len() == split(
                s@,
                separator,
            ).len(),
            forall|j: int|
                0 <= j < pieces@.len() ==> (#[trigger] pieces@[j])@ == split(s@, separator)[j],
            forall|j: int|
                0 <= j < split(s@.skip(start as int), separator).len() ==> #[trigger] split(
                    s@.skip(start as int),
                    separator,
                )[j] == split(s@, separator)[pieces@.len() + j],
        decreases s@.len() - i,
    {
        if s[i] == separator {
            let ghost rest = s@.skip(start as int);
            let ghost before = pieces@.len();
            proof {
                lemma_field_end(rest, separator, 0, i - start);
                assert(rest.take(i - start) == s@.subrange(start as int, i as int));
                assert(rest.skip(i - start + 1) == s@.skip(i + 1));
                assert(split(rest, separator)[0] == s@.subrange(start as int, i as int));
                assert forall|j: int|
                    0 <= j < split(s@.skip(i + 1), separator).len() implies #[trigger] split(
                    s@.skip(i + 1),
                    separator,
                )[j] == split(s@, separator)[before + 1 + j] by {
                    assert(split(rest, separator)[j + 1] == split(s@.skip(i + 1), separator)[j]);
                }
            }
            pieces.push(slice_subrange(s, start, i));
            start = i + 1;
        }
        i = i + 1;
    }
    proof {
        let rest = s@.skip(start as int);
        lemma_field_end(rest, separator, 0, rest.len() as int);
        assert(rest == s@.subrange(start as int, s@.len() as int));
        assert(split(rest, separator)[0] == rest);
    }
    pieces.push(slice_subrange(s, start, s.len()));
    pieces
}

/// Reads a decimal number of at most `maximum`.
pub fn parse_number(s: &[u8], maximum: u32) -> (value: Option<u32>)
    ensures
        match value {
            Some(value) => number(s@, maximum as int) == Some(value as int),
            None => number(s@, maximum as int) is None,
        },
{
    let start: usize = if s.len() > 0 && s[0] == 0x2b {
        1
    } else {
        0
    };
    let ghost digits = s@.skip(start as int);
    assert(start == 0 ==> digits == s@);
    if start == s.len() {
        return None;
    }
    let mut value: u64 = 0;
    let mut i: usize = start;
    assert(digits.take(0) == Seq::<u8>::empty());
    while i < s.len()
        invariant
            start <= i <= s@.len(),
            digits == s@.skip(start as int),
            number(s@, maximum as int) == (if is_decimal(digits) && decimal_value(digits)
                <= maximum {
                Some(decimal_value(digits))
            } else {
                None
            }),
            forall|j: int| 0 <= j < i - start ==> 0x30 <= #[trigger] digits[j] <= 0x39,
            value == decimal_value(digits.take(i - start)),
            value <= maximum,
        decreases s@.len() - i,
    {
        let byte = s[i];
        assert(byte == digits[i - start]);
        if byte < 0x30 || byte > 0x39 {
            return None;
        }
        let ghost next = digits.take(i + 1 - start);
        value = value * 10 + (byte - 0x30) as u64;
        proof {
            assert(next.drop_last() == digits.take(i - start));
        }
        if value > maximum as u64 {
            proof {
                if is_decimal(digits) {
                    lemma_decimal_prefix(digits, i + 1 - start);
                }
            }
            return None;
        }
        i = i + 1;
    }
    assert(digits.take(i - start) == digits);
    Some(value as u32)
}

/// The text of which `pieces` are the pieces between separators.
pub open spec fn joined(pieces: Seq<Seq<u8>>, separator: u8) -> Seq<u8>
    decreases pieces.len(),
{
    if pieces.len() == 0 {
        Seq::empty()
    } else if pieces.len() == 1 {
        pieces[0]
    } else {
        pieces[0] + seq![separator] + joined(pieces.skip(1), separator)
    }
}

proof fn lemma_field_end_bounds(s: Seq<u8>, separator: u8, from: int)
    requires
        0 <= from <= s.len(),
    ensures
        ({
            let end = field_end(s, separator, from);
            &&& from <= end <= s.len()
            &&& end < s.len() ==> s[end] == separator
            &&& forall|i: int| from <= i < end ==> s[i] != separator
        }),
    decreases s.len() - from,
{
    if from < s.len() && s[from] != separator {
        lemma_field_end_bounds(s, separator, from + 1);
    }
}

/// Splitting loses nothing and cuts at every separator: the pieces with a separator between each
/// two of them are the text, and no piece holds a separator.
pub proof fn law_pieces_make_up_the_text(s: Seq<u8>, separator: u8)
    ensures
        split(s, separator).len() >= 1,
        joined(split(s, separator), separator) == s,
        forall|i: int, j: int|
            0 <= i < split(s, separator).len() && 0 <= j < split(s, separator)[i].len()
                ==> #[trigger] split(s, separator)[i][j] != separator,
    decreases s.len(),
{
    let end = field_end(s, separator, 0);
    lemma_field_end_bounds(s, separator, 0);
    if end < s.len() {
        let rest = s.skip(end + 1);
        law_pieces_make_up_the_text(rest, separator);
        let pieces = split(s, separator);
        assert(pieces == seq![s.take(end)] + split(rest, separator));
        assert(pieces.skip(1) == split(rest, separator));
        assert(s.take(end) + seq![separator] + rest == s);
        assert forall|i: int, j: int|
            0 <= i < pieces.len() && 0 <= j < pieces[i].len() implies #[trigger] pieces[i][j]
            != separator by {
            if i > 0 {
                assert(pieces[i] == split(rest, separator)[i - 1]);
                assert(split(rest, separator)[i - 1][j] != separator);
            }
        }
    }
}

/// Numbers are read in decimal, digit by digit. A digit is its own value; a digit behind a number
/// adds to ten times that number, and the result counts if it is within the limit. What is not a
/// number before a digit is none with it, and text that ends in anything but a digit is none. A
/// plus sign may lead, once, and means nothing.
pub proof fn law_numbers_are_read_in_decimal(s: Seq<u8>, last: u8, limit: int, maximum: int)
    ensures
        number(Seq::empty(), maximum) is None,
        0x30 <= last <= 0x39 && last - 0x30 <= maximum ==> number(seq![last], maximum) == Some(
            last - 0x30,
        ) && number(seq![0x2bu8, last], maximum) == Some(last - 0x30),
        0x30 <= last <= 0x39 && last - 0x30 > maximum ==> number(seq![last], maximum) is None
            && number(seq![0x2bu8, last], maximum) is None,
        0x30 <= last <= 0x39 && number(s, limit) is Some ==> number(s.push(last), maximum) == (if 10
            * number(s, limit).unwrap() + (last - 0x30) <= maximum {
            Some(10 * number(s, limit).unwrap() + (last - 0x30))
        } else {
            None
        }),
        (forall|any: int| #[trigger] number(s, any) is None) && s.len() > 0 && s != seq![0x2bu8]
            ==> number(s.push(last), maximum) is None,
        last < 0x30 || last > 0x39 ==> number(s.push(last), maximum) is None,
        number(s, limit) is Some ==> 0 <= number(s, limit).unwrap() <= limit,
{
    let plus = seq![0x2bu8];
    let single = seq![last];
    assert(single.drop_last() == Seq::<u8>::empty());
    assert(decimal_value(Seq::<u8>::empty()) == 0);
    assert(decimal_value(single) == last - 0x30);
    assert(seq![0x2bu8, last].skip(1) == single);
    let longer = s.push(last);
    let digits = if s.len() > 0 && s[0] == 0x2b {
        s.skip(1)
    } else {
        s
    };
    let longer_digits = if longer[0] == 0x2b {
        longer.skip(1)
    } else {
        longer
    };
    if s.len() > 0 {
        assert(longer_digits == digits.push(last));
        assert(longer_digits.drop_last() == digits);
        assert(longer_digits.last() == last);
        if 0x30 <= last <= 0x39 && is_decimal(digits) {
            assert(is_decimal(longer_digits));
        }
        if is_decimal(longer_digits) && digits.len() > 0 {
            assert forall|i: int| 0 <= i < digits.len() implies 0x30 <= #[trigger] digits[i] <= 0x39 by {
                assert(digits[i] == longer_digits[i]);
            }
            assert(number(s, decimal_value(digits)) is Some);
        }
        if digits.len() == 0 {
            assert(s == plus);
        }
    } else {
        assert(longer == single);
    }
    if last < 0x30 || last > 0x39 {
        if longer_digits.len() > 0 {
            assert(longer_digits[longer_digits.len() - 1] == last);
        }
    }
    if number(s, limit) is Some {
        lemma_decimal_prefix(digits, 0);
    }
}

} // verus!
