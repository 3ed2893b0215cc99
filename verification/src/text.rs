//! Text as the exchanges need it: decimal numbers, records of fields joined
//! by a delimiter, and bytes read as UTF-8.

use vstd::prelude::*;
use vstd::string::{StrSliceExecFns, StringExecFns};
use vstd::utf8::{decode_utf8, valid_utf8};

verus! {

/// The character of the decimal digit `d`.
pub open spec fn digit_char(d: nat) -> char {
    if d == 0 {
        '0'
    } else if d == 1 {
        '1'
    } else if d == 2 {
        '2'
    } else if d == 3 {
        '3'
    } else if d == 4 {
        '4'
    } else if d == 5 {
        '5'
    } else if d == 6 {
        '6'
    } else if d == 7 {
        '7'
    } else if d == 8 {
        '8'
    } else {
        '9'
    }
}

/// The decimal form of `n`, without sign and without leading zeros.
pub open spec fn decimal_text(n: nat) -> Seq<char>
    decreases n,
{
    if n < 10 {
        seq![digit_char(n)]
    } else {
        decimal_text(n / 10).push(digit_char(n % 10))
    }
}

fn digit_str(d: u64) -> (s: &'static str)
    requires
        d < 10,
    ensures
        s@ == seq![digit_char(d as nat)],
{
    proof {
        reveal_strlit("0");
        reveal_strlit("1");
        reveal_strlit("2");
        reveal_strlit("3");
        reveal_strlit("4");
        reveal_strlit("5");
        reveal_strlit("6");
        reveal_strlit("7");
        reveal_strlit("8");
        reveal_strlit("9");
    }
    let s = if d == 0 {
        "0"
    } else if d == 1 {
        "1"
    } else if d == 2 {
        "2"
    } else if d == 3 {
        "3"
    } else if d == 4 {
        "4"
    } else if d == 5 {
        "5"
    } else if d == 6 {
        "6"
    } else if d == 7 {
        "7"
    } else if d == 8 {
        "8"
    } else {
        "9"
    };
    assert(s@ =~= seq![digit_char(d as nat)]);
    s
}

/// Writes `n` in decimal.
pub fn decimal(n: u64) -> (text: String)
    ensures
        text@ == decimal_text(n as nat),
    decreases n,
{
    if n < 10 {
        String::from_str(digit_str(n))
    } else {
        let mut text = decimal(n / 10);
        text.append(digit_str(n % 10));
        assert(text@ =~= decimal_text(n as nat));
        text
    }
}

/// Whether `delimiter` stands in `text` at position `i`.
pub open spec fn delimiter_at(text: Seq<char>, delimiter: Seq<char>, i: int) -> bool {
    0 <= i && i + delimiter.len() <= text.len() && text.subrange(i, i + delimiter.len())
        == delimiter
}

/// The position of the first `delimiter` in `text` at or behind `from`; the
/// length of `text` if there is none.
pub open spec fn next_delimiter(text: Seq<char>, delimiter: Seq<char>, from: int) -> int
    decreases text.len() - from,
{
    if from < 0 || from >= text.len() || from + delimiter.len() > text.len() {
        text.len() as int
    } else if delimiter_at(text, delimiter, from) {
        from
    } else {
        next_delimiter(text, delimiter, from + 1)
    }
}

/// The first delimiter at or behind `from` is found between `from` and the
/// end, it is a delimiter, and none stands before it.
proof fn lemma_next_delimiter(text: Seq<char>, delimiter: Seq<char>, from: int)
    requires
        0 <= from <= text.len(),
        delimiter.len() > 0,
    ensures
        from <= next_delimiter(text, delimiter, from) <= text.len(),
        next_delimiter(text, delimiter, from) < text.len() ==> delimiter_at(
            text,
            delimiter,
            next_delimiter(text, delimiter, from),
        ),
        forall|i: int|
            from <= i < next_delimiter(text, delimiter, from) ==> !delimiter_at(text, delimiter, i),
    decreases text.len() - from,
{
    if from >= text.len() || from + delimiter.len() > text.len() {
    } else if delimiter_at(text, delimiter, from) {
    } else {
        lemma_next_delimiter(text, delimiter, from + 1);
    }
}

/// The fields of the part of `text` that begins at `from`: the text is cut
/// at each occurrence of the delimiter, leftmost first, and the delimiters
/// are left out. A text without delimiter is one field; so is the empty text.
pub open spec fn split_from(text: Seq<char>, delimiter: Seq<char>, from: int) -> Seq<Seq<char>>
    decreases text.len() - from,
{
    let at = next_delimiter(text, delimiter, from);
    if delimiter.len() > 0 && 0 <= from <= at && at + delimiter.len() <= text.len() {
        seq![text.subrange(from, at)] + split_from(text, delimiter, at + delimiter.len())
    } else {
        seq![text.subrange(from, text.len() as int)]
    }
}

/// The fields of `text`.
pub open spec fn split_fields(text: Seq<char>, delimiter: Seq<char>) -> Seq<Seq<char>> {
    split_from(text, delimiter, 0)
}

/// The fields with a delimiter between each two neighbours.
pub open spec fn join_fields(fields: Seq<Seq<char>>, delimiter: Seq<char>) -> Seq<char>
    decreases fields.len(),
{
    if fields.len() == 0 {
        Seq::empty()
    } else if fields.len() == 1 {
        fields[0]
    } else {
        fields[0] + delimiter + join_fields(fields.skip(1), delimiter)
    }
}

/// Splitting loses nothing: the fields of a text from `from` on, joined
/// again, are that part of the text.
proof fn lemma_join_split(text: Seq<char>, delimiter: Seq<char>, from: int)
    requires
        0 <= from <= text.len(),
        delimiter.len() > 0,
    ensures
        join_fields(split_from(text, delimiter, from), delimiter) == text.subrange(
            from,
            text.len() as int,
        ),
        split_from(text, delimiter, from).len() >= 1,
    decreases text.len() - from,
{
    lemma_next_delimiter(text, delimiter, from);
    let at = next_delimiter(text, delimiter, from);
    if at < text.len() {
        let behind = at + delimiter.len();
        lemma_join_split(text, delimiter, behind);
        let rest = split_from(text, delimiter, behind);
        let all = split_from(text, delimiter, from);
        assert(all.skip(1) =~= rest);
        assert(text.subrange(from, text.len() as int) =~= text.subrange(from, at) + text.subrange(
            at,
            behind,
        ) + text.subrange(behind, text.len() as int));
    }
}

/// Splitting the whole text and joining the fields gives the text back.
pub proof fn lemma_join_split_fields(text: Seq<char>, delimiter: Seq<char>)
    requires
        delimiter.len() > 0,
    ensures
        join_fields(split_fields(text, delimiter), delimiter) == text,
        split_fields(text, delimiter).len() >= 1,
{
    lemma_join_split(text, delimiter, 0);
    assert(text.subrange(0, text.len() as int) =~= text);
}

/// Whether `field` can be followed by a delimiter without a delimiter
/// beginning inside the field: the only delimiter in the field and the
/// delimiter behind it is the one behind it.
pub open spec fn closes_cleanly(field: Seq<char>, delimiter: Seq<char>) -> bool {
    forall|i: int| 0 <= i < field.len() ==> !delimiter_at(field + delimiter, delimiter, i)
}

/// Whether no delimiter stands anywhere in `field`.
pub open spec fn holds_no_delimiter(field: Seq<char>, delimiter: Seq<char>) -> bool {
    forall|i: int| !delimiter_at(field, delimiter, i)
}

/// Whether the fields can be told apart again once they are joined: there
/// is at least one, each but the last closes cleanly, and the last holds no
/// delimiter.
pub open spec fn separable(fields: Seq<Seq<char>>, delimiter: Seq<char>) -> bool {
    &&& fields.len() >= 1
    &&& forall|k: int| 0 <= k < fields.len() - 1 ==> closes_cleanly(#[trigger] fields[k], delimiter)
    &&& holds_no_delimiter(fields.last(), delimiter)
}

proof fn lemma_next_delimiter_shift(text: Seq<char>, delimiter: Seq<char>, k: int, from: int)
    requires
        0 <= k,
        0 <= from,
        k + from <= text.len(),
        delimiter.len() > 0,
    ensures
        next_delimiter(text, delimiter, k + from) == k + next_delimiter(
            text.skip(k),
            delimiter,
            from,
        ),
    decreases text.len() - k - from,
{
    let tail = text.skip(k);
    if k + from >= text.len() || k + from + delimiter.len() > text.len() {
    } else {
        assert(text.subrange(k + from, k + from + delimiter.len()) =~= tail.subrange(
            from,
            from + delimiter.len(),
        ));
        if !delimiter_at(text, delimiter, k + from) {
            lemma_next_delimiter_shift(text, delimiter, k, from + 1);
        }
    }
}

proof fn lemma_split_shift(text: Seq<char>, delimiter: Seq<char>, k: int, from: int)
    requires
        0 <= k,
        0 <= from,
        k + from <= text.len(),
        delimiter.len() > 0,
    ensures
        split_from(text, delimiter, k + from) == split_from(text.skip(k), delimiter, from),
    decreases text.len() - k - from,
{
    let tail = text.skip(k);
    lemma_next_delimiter_shift(text, delimiter, k, from);
    lemma_next_delimiter(tail, delimiter, from);
    let at = next_delimiter(tail, delimiter, from);
    if at + delimiter.len() <= tail.len() {
        lemma_split_shift(text, delimiter, k, at + delimiter.len());
        assert(text.subrange(k + from, k + at) =~= tail.subrange(from, at));
    } else {
        assert(text.subrange(k + from, text.len() as int) =~= tail.subrange(
            from,
            tail.len() as int,
        ));
    }
}

/// Joining loses nothing either: fields that are separable come back when
/// their join is split.
pub proof fn lemma_split_join(fields: Seq<Seq<char>>, delimiter: Seq<char>)
    requires
        delimiter.len() > 0,
        separable(fields, delimiter),
    ensures
        split_fields(join_fields(fields, delimiter), delimiter) == fields,
    decreases fields.len(),
{
    let text = join_fields(fields, delimiter);
    let first = fields[0];
    lemma_next_delimiter(text, delimiter, 0);
    let at = next_delimiter(text, delimiter, 0);
    if fields.len() == 1 {
        assert(fields.last() == first);
        assert(!delimiter_at(first, delimiter, at));
        assert(first.subrange(0, first.len() as int) =~= first);
        assert(split_fields(text, delimiter) =~= fields);
    } else {
        let others = fields.skip(1);
        let rest = join_fields(others, delimiter);
        let behind = (first.len() + delimiter.len()) as int;
        assert(closes_cleanly(first, delimiter));
        assert(text.subrange(first.len() as int, behind) =~= delimiter);
        assert(delimiter_at(text, delimiter, first.len() as int));
        if at < first.len() {
            assert(text.subrange(at, at + delimiter.len()) =~= (first + delimiter).subrange(
                at,
                at + delimiter.len(),
            ));
            assert(delimiter_at(first + delimiter, delimiter, at));
        }
        assert(at == first.len());
        assert(text.subrange(0, at) =~= first);
        assert(text.skip(behind) =~= rest);
        lemma_split_shift(text, delimiter, behind, 0);
        assert forall|k: int| 0 <= k < others.len() - 1 implies closes_cleanly(
            #[trigger] others[k],
            delimiter,
        ) by {
            assert(others[k] == fields[k + 1]);
        }
        assert(others.last() == fields.last());
        lemma_split_join(others, delimiter);
        assert(split_fields(text, delimiter) =~= seq![first] + others);
        assert(seq![first] + others =~= fields);
    }
}

/// The texts that a vector of strings holds, in order.
pub open spec fn texts(fields: Seq<String>) -> Seq<Seq<char>> {
    Seq::new(fields.len(), |i: int| fields[i]@)
}

fn matches_at(text: &str, delimiter: &str, at: usize, n: usize, m: usize) -> (b: bool)
    requires
        n == text@.len(),
        m == delimiter@.len(),
        at <= n,
        m <= n - at,
    ensures
        b == delimiter_at(text@, delimiter@, at as int),
{
    let mut j: usize = 0;
    while j < m
        invariant
            j <= m,
            n == text@.len(),
            m == delimiter@.len(),
            at + m <= n,
            forall|k: int| 0 <= k < j ==> text@[at + k] == delimiter@[k],
        decreases m - j,
    {
        if text.get_char(at + j) != delimiter.get_char(j) {
            proof {
                assert(text@.subrange(at as int, at + m)[j as int] == text@[at + j]);
            }
            return false;
        }
        j = j + 1;
    }
    proof {
        assert(text@.subrange(at as int, at + m) =~= delimiter@);
    }
    true
}

/// Cuts `text` at each occurrence of `delimiter`, leftmost first.
pub fn split_text(text: &str, delimiter: &str) -> (fields: Vec<String>)
    requires
        delimiter@.len() > 0,
    ensures
        texts(fields@) == split_fields(text@, delimiter@),
        fields@.len() >= 1,
{
    let n = text.unicode_len();
    let m = delimiter.unicode_len();
    let mut fields: Vec<String> = Vec::new();
    let mut start: usize = 0;
    let mut i: usize = 0;
    while i < n && n - i >= m
        invariant
            start <= i <= n,
            n == text@.len(),
            m == delimiter@.len(),
            m > 0,
            split_fields(text@, delimiter@) == texts(fields@) + split_from(
                text@,
                delimiter@,
                start as int,
            ),
            next_delimiter(text@, delimiter@, start as int) == next_delimiter(
                text@,
                delimiter@,
                i as int,
            ),
        decreases n - i,
    {
        if matches_at(text, delimiter, i, n, m) {
            let field = String::from_str(text.substring_char(start, i));
            proof {
                assert(texts(fields@.push(field)) =~= texts(fields@) + seq![
                    text@.subrange(start as int, i as int),
                ]);
            }
            fields.push(field);
            i = i + m;
            start = i;
        } else {
            i = i + 1;
        }
    }
    let field = String::from_str(text.substring_char(start, n));
    proof {
        assert(next_delimiter(text@, delimiter@, i as int) == n);
        assert(texts(fields@.push(field)) =~= texts(fields@) + seq![
            text@.subrange(start as int, n as int),
        ]);
    }
    fields.push(field);
    fields
}

/// Joins three fields by `delimiter`.
pub fn join_three(first: &str, second: &str, third: &str, delimiter: &str) -> (joined: String)
    ensures
        joined@ == join_fields(seq![first@, second@, third@], delimiter@),
{
    let mut joined = String::from_str(first);
    joined.append(delimiter);
    joined.append(second);
    joined.append(delimiter);
    joined.append(third);
    proof {
        let fields = seq![first@, second@, third@];
        assert(fields.skip(1) =~= seq![second@, third@]);
        assert(fields.skip(1).skip(1) =~= seq![third@]);
        assert(join_fields(seq![third@], delimiter@) == third@);
        assert(join_fields(seq![second@, third@], delimiter@) == second@ + delimiter@ + third@);
        assert(joined@ =~= join_fields(fields, delimiter@));
    }
    joined
}

/// The value of the decimal digit `c`, if it is one.
pub open spec fn digit_value(c: char) -> Option<nat> {
    if c == '0' {
        Some(0)
    } else if c == '1' {
        Some(1)
    } else if c == '2' {
        Some(2)
    } else if c == '3' {
        Some(3)
    } else if c == '4' {
        Some(4)
    } else if c == '5' {
        Some(5)
    } else if c == '6' {
        Some(6)
    } else if c == '7' {
        Some(7)
    } else if c == '8' {
        Some(8)
    } else if c == '9' {
        Some(9)
    } else {
        None
    }
}

/// Whether `digits` holds decimal digits and nothing else.
pub open spec fn all_digits(digits: Seq<char>) -> bool {
    forall|i: int| 0 <= i < digits.len() ==> digit_value(#[trigger] digits[i]) is Some
}

/// The number that a run of decimal digits writes; zero for the empty run.
pub open spec fn digits_value(digits: Seq<char>) -> nat
    decreases digits.len(),
{
    if digits.len() == 0 {
        0
    } else {
        digits_value(digits.drop_last()) * 10 + match digit_value(digits.last()) {
            Some(d) => d,
            None => 0,
        }
    }
}

/// The number that `text` writes, if it writes one: an optional plus sign,
/// then one or more decimal digits, and nothing else. Leading zeros count
/// for nothing.
pub open spec fn number_value(text: Seq<char>) -> Option<nat> {
    let digits = if text.len() > 0 && text[0] == '+' {
        text.skip(1)
    } else {
        text
    };
    if digits.len() > 0 && all_digits(digits) {
        Some(digits_value(digits))
    } else {
        None
    }
}

/// A longer run of digits writes no smaller a number.
proof fn lemma_digits_value_grows(digits: Seq<char>, n: int)
    requires
        0 <= n <= digits.len(),
    ensures
        digits_value(digits.take(n)) <= digits_value(digits),
    decreases digits.len() - n,
{
    if n < digits.len() {
        assert(digits.take(n + 1).drop_last() =~= digits.take(n));
        lemma_digits_value_grows(digits, n + 1);
    } else {
        assert(digits.take(n) =~= digits);
    }
}

fn digit_of(c: char) -> (d: Option<u64>)
    ensures
        match d {
            Some(v) => digit_value(c) == Some(v as nat),
            None => digit_value(c) is None,
        },
{
    if c == '0' {
        Some(0)
    } else if c == '1' {
        Some(1)
    } else if c == '2' {
        Some(2)
    } else if c == '3' {
        Some(3)
    } else if c == '4' {
        Some(4)
    } else if c == '5' {
        Some(5)
    } else if c == '6' {
        Some(6)
    } else if c == '7' {
        Some(7)
    } else if c == '8' {
        Some(8)
    } else if c == '9' {
        Some(9)
    } else {
        None
    }
}

/// Reads `text` as an unsigned decimal number of at most `limit`. Gives
/// `None` if the text writes no number or one above the limit.
pub fn parse_number(text: &str, limit: u64) -> (r: Option<u64>)
    ensures
        match r {
            Some(v) => number_value(text@) == Some(v as nat) && v <= limit,
            None => number_value(text@) matches Some(v) ==> v > limit,
        },
{
    let n = text.unicode_len();
    if n == 0 {
        return None;
    }
    let first: usize = if text.get_char(0) == '+' {
        1
    } else {
        0
    };
    if first == n {
        return None;
    }
    let ghost digits = text@.skip(first as int);
    proof {
        assert(text@.skip(0) =~= text@);
    }
    let mut value: u64 = 0;
    let mut i: usize = first;
    while i < n
        invariant
            first <= i <= n,
            first < n,
            n == text@.len(),
            digits == text@.skip(first as int),
            digits == if text@.len() > 0 && text@[0] == '+' {
                text@.skip(1)
            } else {
                text@
            },
            all_digits(digits.take(i - first)),
            value == digits_value(digits.take(i - first)),
            value <= limit,
        decreases n - i,
    {
        let c = text.get_char(i);
        let ghost before = digits.take(i - first);
        let ghost now = digits.take(i - first + 1);
        proof {
            assert(now.drop_last() =~= before);
            assert(now.last() == c);
            assert(digits[i - first] == c);
        }
        match digit_of(c) {
            None => {
                proof {
                    assert(digit_value(digits[i - first]) is None);
                }
                return None;
            },
            Some(d) => {
                proof {
                    assert forall|k: int| 0 <= k < now.len() implies digit_value(
                        #[trigger] now[k],
                    ) is Some by {
                        if k < before.len() {
                            assert(now[k] == before[k]);
                        }
                    }
                }
                if limit < d || value > (limit - d) / 10 {
                    proof {
                        lemma_digits_value_grows(digits, i - first + 1);
                        assert(digits_value(now) == value * 10 + d);
                        assert(value * 10 + d > limit);
                    }
                    // the number is above the limit whatever follows, if
                    // only digits follow; and no number if anything else does
                    return None;
                }
                value = value * 10 + d;
            },
        }
        i = i + 1;
    }
    proof {
        assert(digits.take(n - first) =~= digits);
    }
    Some(value)
}

/// The number that `text` writes with a sign, if it writes one: a minus
/// sign and one or more decimal digits, or a number as [`number_value`]
/// reads it.
pub open spec fn signed_value(text: Seq<char>) -> Option<int> {
    if text.len() > 0 && text[0] == '-' {
        let digits = text.skip(1);
        if digits.len() > 0 && all_digits(digits) {
            Some(-(digits_value(digits) as int))
        } else {
            None
        }
    } else {
        match number_value(text) {
            Some(v) => Some(v as int),
            None => None,
        }
    }
}

/// Reads `text` as a signed decimal number that fits 32 bits. Gives `None`
/// if the text writes no number or one out of that range.
pub fn parse_signed(text: &str) -> (r: Option<i32>)
    ensures
        match r {
            Some(v) => signed_value(text@) == Some(v as int),
            None => signed_value(text@) matches Some(v) ==> v < i32::MIN || v > i32::MAX,
        },
{
    let n = text.unicode_len();
    if n > 0 && text.get_char(0) == '-' {
        let rest = text.substring_char(1, n);
        proof {
            assert(rest@ =~= text@.skip(1));
        }
        if n > 1 && rest.get_char(0) == '+' {
            proof {
                assert(digit_value(rest@[0]) is None);
            }
            return None;
        }
        match parse_number(rest, 2147483648) {
            Some(v) => Some((-(v as i64)) as i32),
            None => None,
        }
    } else {
        match parse_number(text, 2147483647) {
            Some(v) => Some(v as i32),
            None => None,
        }
    }
}

/// Whether `c` is white space: a blank, a tabulator, a line or paragraph
/// break, or one of the other spaces of Unicode.
pub open spec fn is_blank(c: char) -> bool {
    let code = c as u32;
    ||| 0x09 <= code <= 0x0d
    ||| code == 0x20
    ||| code == 0x85
    ||| code == 0xa0
    ||| code == 0x1680
    ||| 0x2000 <= code <= 0x200a
    ||| code == 0x2028
    ||| code == 0x2029
    ||| code == 0x202f
    ||| code == 0x205f
    ||| code == 0x3000
}

fn blank(c: char) -> (b: bool)
    ensures
        b == is_blank(c),
{
    let code = c as u32;
    (0x09 <= code && code <= 0x0d) || code == 0x20 || code == 0x85 || code == 0xa0 || code
        == 0x1680 || (0x2000 <= code && code <= 0x200a) || code == 0x2028 || code == 0x2029
        || code == 0x202f || code == 0x205f || code == 0x3000
}

/// The number of white-space characters that `text` begins with.
pub open spec fn leading_blanks(text: Seq<char>) -> nat
    decreases text.len(),
{
    if text.len() > 0 && is_blank(text[0]) {
        1 + leading_blanks(text.skip(1))
    } else {
        0
    }
}

/// The number of white-space characters that `text` ends with.
pub open spec fn trailing_blanks(text: Seq<char>) -> nat
    decreases text.len(),
{
    if text.len() > 0 && is_blank(text.last()) {
        1 + trailing_blanks(text.drop_last())
    } else {
        0
    }
}

/// `text` without the white space at its two ends.
pub open spec fn trimmed(text: Seq<char>) -> Seq<char> {
    let front = text.skip(leading_blanks(text) as int);
    front.take(front.len() - trailing_blanks(front))
}

/// Takes the white space off both ends of `text`.
pub fn trim(text: &str) -> (inner: &str)
    ensures
        inner@ == trimmed(text@),
{
    let n = text.unicode_len();
    let mut first: usize = 0;
    proof {
        assert(text@.skip(0) =~= text@);
    }
    while first < n && blank(text.get_char(first))
        invariant
            first <= n,
            n == text@.len(),
            leading_blanks(text@) == first + leading_blanks(text@.skip(first as int)),
        decreases n - first,
    {
        proof {
            assert(text@.skip(first as int).skip(1) =~= text@.skip(first + 1));
        }
        first = first + 1;
    }
    proof {
        assert(text@.skip(0) =~= text@);
        if first == n {
            assert(text@.skip(first as int).len() == 0);
        }
        assert(leading_blanks(text@) == first);
    }
    let ghost front = text@.skip(first as int);
    let mut last: usize = n;
    proof {
        assert(front.take(n - first) =~= front);
    }
    while last > first && blank(text.get_char(last - 1))
        invariant
            first <= last <= n,
            n == text@.len(),
            front == text@.skip(first as int),
            trailing_blanks(front) == (n - last) + trailing_blanks(front.take(last - first)),
        decreases last - first,
    {
        proof {
            let part = front.take(last - first);
            assert(part.last() == text@[last - 1]);
            assert(part.drop_last() =~= front.take(last - first - 1));
        }
        last = last - 1;
    }
    proof {
        assert(front.take(n - first) =~= front);
        let part = front.take(last - first);
        if last > first {
            assert(part.last() == text@[last - 1]);
        }
        assert(trailing_blanks(front) == n - last);
        assert(text@.subrange(first as int, last as int) =~= trimmed(text@));
    }
    text.substring_char(first, last)
}

/// How a reading shows in a row or a record: the value where there is one,
/// with the unit behind it; else the word `Error`, a colon, a blank and the
/// reason.
pub open spec fn reading_text(reading: Result<Seq<char>, Seq<char>>, unit: Seq<char>) -> Seq<char> {
    match reading {
        Ok(value) => value + unit,
        Err(reason) => seq!['E', 'r', 'r', 'o', 'r', ':', ' '] + reason,
    }
}

/// The reading taken by the views of its two texts.
pub open spec fn reading_view(reading: &Result<String, String>) -> Result<Seq<char>, Seq<char>> {
    match reading {
        Ok(value) => Ok(value@),
        Err(reason) => Err(reason@),
    }
}

/// Writes a reading as it shows in a row or a record.
pub fn format_reading(reading: &Result<String, String>, unit: &str) -> (text: String)
    ensures
        text@ == reading_text(reading_view(reading), unit@),
{
    match reading {
        Ok(value) => {
            let mut text = value.clone();
            text.append(unit);
            text
        },
        Err(reason) => {
            proof {
                reveal_strlit("Error: ");
            }
            let mut text = String::from_str("Error: ");
            text.append(reason.as_str());
            assert(text@ =~= reading_text(reading_view(reading), unit@));
            text
        },
    }
}

/// Calls `String::from_utf8` of the standard library: the bytes become a
/// string if and only if they are well-formed UTF-8, and the string then
/// holds the characters that they encode.
#[verifier::external_body]
pub(crate) fn string_from_utf8(bytes: Vec<u8>) -> (text: Option<String>)
    ensures
        text is Some <==> valid_utf8(bytes@),
        text matches Some(s) ==> s@ == decode_utf8(bytes@),
{
    match String::from_utf8(bytes) {
        Ok(s) => Some(s),
        Err(_) => None,
    }
}

} // verus!
