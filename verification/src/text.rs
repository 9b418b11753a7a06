//! Character-level helpers shared by the RESP codecs, the messages and the
//! database: decimal printing and parsing, CRLF handling and conversions
//! between `String` and character vectors.
use vstd::prelude::*;
use vstd::string::*;

verus! {

/// The two-character line terminator of the RESP protocol.
pub open spec fn crlf() -> Seq<char> {
    seq!['\r', '\n']
}

/// The ASCII digit that stands for `d` (for `d < 10`).
pub open spec fn digit_char(d: nat) -> char {
    if d == 0 {
        '0'
    } else if d == 1 {
        '1'
    } else if d == 2 {
        '2'
    } else if d == 3 {
        '3'
    } else if d == 4 {
        '4'
    } else if d == 5 {
        '5'
    } else if d == 6 {
        '6'
    } else if d == 7 {
        '7'
    } else if d == 8 {
        '8'
    } else {
        '9'
    }
}

pub open spec fn is_digit(c: char) -> bool {
    '0' <= c && c <= '9'
}

pub open spec fn digit_value(c: char) -> nat {
    ((c as int) - ('0' as int)) as nat
}

/// Decimal representation of a natural number, without leading zeros.
pub open spec fn nat_to_decimal(n: nat) -> Seq<char>
    decreases n,
{
    if n < 10 {
        seq![digit_char(n)]
    } else {
        nat_to_decimal(n / 10).push(digit_char(n % 10))
    }
}

/// Decimal representation of an integer, with a leading `-` when negative.
pub open spec fn int_to_decimal(i: int) -> Seq<char> {
    if i < 0 {
        seq!['-'] + nat_to_decimal((-i) as nat)
    } else {
        nat_to_decimal(i as nat)
    }
}

pub open spec fn all_digits(s: Seq<char>) -> bool {
    forall|i: int| 0 <= i < s.len() ==> is_digit(#[trigger] s[i])
}

/// The number that a string of decimal digits denotes.
pub open spec fn digits_value(s: Seq<char>) -> nat
    decreases s.len(),
{
    if s.len() == 0 {
        0
    } else {
        digits_value(s.drop_last()) * 10 + digit_value(s.last())
    }
}

/// The magnitude part of a signed number: the string without its sign.
pub open spec fn unsigned_part(s: Seq<char>) -> Seq<char> {
    if s.len() > 0 && (s[0] == '-' || s[0] == '+') {
        s.drop_first()
    } else {
        s
    }
}

pub open spec fn is_negative_text(s: Seq<char>) -> bool {
    s.len() > 0 && s[0] == '-'
}

/// What parsing `s` as an `isize` gives: an optional sign, then at least one
/// decimal digit, and a value in the range of `isize`.
pub open spec fn parse_isize_spec(s: Seq<char>) -> Option<int> {
    let body = unsigned_part(s);
    if body.len() == 0 || !all_digits(body) {
        None
    } else {
        let v: int = if is_negative_text(s) {
            -(digits_value(body) as int)
        } else {
            digits_value(body) as int
        };
        if isize::MIN <= v <= isize::MAX {
            Some(v)
        } else {
            None
        }
    }
}

/// What parsing `s` as a `usize` gives: an optional `+`, then at least one
/// decimal digit, and a value in the range of `usize`.
pub open spec fn parse_usize_spec(s: Seq<char>) -> Option<nat> {
    let body = if s.len() > 0 && s[0] == '+' {
        s.drop_first()
    } else {
        s
    };
    if body.len() == 0 || !all_digits(body) {
        None
    } else if digits_value(body) <= usize::MAX {
        Some(digits_value(body))
    } else {
        None
    }
}

/// Appends one character to a string (`String::push`).
#[verifier::external_body]
pub(crate) fn push_char(s: &mut String, c: char)
    ensures
        final(s)@ == old(s)@.push(c),
{
    s.push(c);
}

/// Appends the characters of `t` to `s`.
pub fn push_text(s: &mut String, t: &str)
    ensures
        final(s)@ == old(s)@ + t@,
{
    s.append(t);
}

/// A new `String` holding the characters of `t`.
pub fn string_of(t: &str) -> (r: String)
    ensures
        r@ == t@,
{
    t.to_owned()
}

/// Appends the line terminator `\r\n`.
pub fn push_crlf(s: &mut String)
    ensures
        final(s)@ == old(s)@ + crlf(),
{
    push_char(s, '\r');
    push_char(s, '\n');
    assert(s@ =~= old(s)@ + crlf());
}

fn digit_to_char(d: u64) -> (c: char)
    requires
        d < 10,
    ensures
        c == digit_char(d as nat),
{
    if d == 0 {
        '0'
    } else if d == 1 {
        '1'
    } else if d == 2 {
        '2'
    } else if d == 3 {
        '3'
    } else if d == 4 {
        '4'
    } else if d == 5 {
        '5'
    } else if d == 6 {
        '6'
    } else if d == 7 {
        '7'
    } else if d == 8 {
        '8'
    } else {
        '9'
    }
}

/// Appends the decimal digits of `n`.
pub fn push_u64(s: &mut String, n: u64)
    ensures
        final(s)@ == old(s)@ + nat_to_decimal(n as nat),
    decreases n,
{
    if n < 10 {
        push_char(s, digit_to_char(n));
        assert(s@ =~= old(s)@ + nat_to_decimal(n as nat));
    } else {
        push_u64(s, n / 10);
        push_char(s, digit_to_char(n % 10));
        assert(s@ =~= old(s)@ + nat_to_decimal(n as nat));
    }
}

/// Appends the decimal representation of a signed number.
pub fn push_isize(s: &mut String, n: isize)
    ensures
        final(s)@ == old(s)@ + int_to_decimal(n as int),
{
    if n < 0 {
        push_char(s, '-');
        let wide: i128 = n as i128;
        let magnitude: u64 = (-wide) as u64;
        push_u64(s, magnitude);
        assert(s@ =~= old(s)@ + int_to_decimal(n as int));
    } else {
        push_u64(s, n as u64);
    }
}

/// `n.to_string()` for an unsigned number.
pub fn usize_to_string(n: usize) -> (r: String)
    ensures
        r@ == nat_to_decimal(n as nat),
{
    let mut r = String::new();
    push_u64(&mut r, n as u64);
    assert(r@ =~= nat_to_decimal(n as nat));
    r
}

/// `n.to_string()` for a signed number.
pub fn isize_to_string(n: isize) -> (r: String)
    ensures
        r@ == int_to_decimal(n as int),
{
    let mut r = String::new();
    push_isize(&mut r, n);
    assert(r@ =~= int_to_decimal(n as int));
    r
}

/// The characters of a string slice, in order.
pub fn to_chars(s: &str) -> (v: Vec<char>)
    ensures
        v@ == s@,
{
    let mut v: Vec<char> = Vec::new();
    for c in it: s.chars()
        invariant
            v@ == it.seq().take(it.index() as int),
    {
        v.push(c);
    }
    v
}

/// The string made of `v[lo..hi]`.
pub fn string_from_range(v: &Vec<char>, lo: usize, hi: usize) -> (r: String)
    requires
        lo <= hi <= v.len(),
    ensures
        r@ == v@.subrange(lo as int, hi as int),
{
    let mut r = String::new();
    let mut i = lo;
    while i < hi
        invariant
            lo <= i <= hi <= v.len(),
            r@ == v@.subrange(lo as int, i as int),
        decreases hi - i,
    {
        push_char(&mut r, v[i]);
        i = i + 1;
        assert(r@ =~= v@.subrange(lo as int, i as int));
    }
    r
}

pub proof fn lemma_digits_value_push(s: Seq<char>, c: char)
    ensures
        digits_value(s.push(c)) == digits_value(s) * 10 + digit_value(c),
{
    assert(s.push(c).drop_last() =~= s);
}

pub proof fn lemma_digits_value_monotone(s: Seq<char>, k: int)
    requires
        0 <= k <= s.len(),
    ensures
        digits_value(s.take(k)) <= digits_value(s),
    decreases s.len() - k,
{
    if k < s.len() {
        lemma_digits_value_monotone(s, k + 1);
        assert(s.take(k + 1) =~= s.take(k).push(s[k]));
        lemma_digits_value_push(s.take(k), s[k]);
    } else {
        assert(s.take(k) =~= s);
    }
}

/// Reads the digits of `v[lo..hi]` into a number, or `None` when one of them
/// is not a digit or the number exceeds `limit`.
fn digits_up_to(v: &Vec<char>, lo: usize, hi: usize, limit: u64) -> (r: Option<u64>)
    requires
        lo <= hi <= v.len(),
    ensures
        match r {
            Some(n) => all_digits(v@.subrange(lo as int, hi as int)) && n == digits_value(
                v@.subrange(lo as int, hi as int),
            ) && n <= limit,
            None => !all_digits(v@.subrange(lo as int, hi as int)) || digits_value(
                v@.subrange(lo as int, hi as int),
            ) > limit,
        },
{
    let ghost body = v@.subrange(lo as int, hi as int);
    let mut acc: u64 = 0;
    let mut i = lo;
    while i < hi
        invariant
            lo <= i <= hi <= v.len(),
            body == v@.subrange(lo as int, hi as int),
            all_digits(body.take(i - lo)),
            acc == digits_value(body.take(i - lo)),
            acc <= limit,
        decreases hi - i,
    {
        let c = v[i];
        assert(body[i - lo] == c);
        if !('0' <= c && c <= '9') {
            assert(!is_digit(body[i - lo]));
            return None;
        }
        let d = (c as u32 - '0' as u32) as u64;
        assert(body.take(i - lo + 1) =~= body.take(i - lo).push(c));
        proof {
            lemma_digits_value_push(body.take(i - lo), c);
        }
        let next: u128 = (acc as u128) * 10 + (d as u128);
        if next > limit as u128 {
            proof {
                lemma_digits_value_monotone(body, i - lo + 1);
            }
            return None;
        }
        acc = next as u64;
        i = i + 1;
    }
    assert(body.take(hi - lo) =~= body);
    Some(acc)
}


/// Parses `v[lo..hi]` as an `isize` (`str::parse::<isize>`).
pub fn parse_isize_range(v: &Vec<char>, lo: usize, hi: usize) -> (r: Option<isize>)
    requires
        lo <= hi <= v.len(),
    ensures
        match r {
            Some(n) => parse_isize_spec(v@.subrange(lo as int, hi as int)) == Some(n as int),
            None => parse_isize_spec(v@.subrange(lo as int, hi as int)) is None,
        },
{
    let ghost s = v@.subrange(lo as int, hi as int);
    if lo == hi {
        return None;
    }
    let first = v[lo];
    let negative = first == '-';
    let start = if first == '-' || first == '+' { lo + 1 } else { lo };
    assert(unsigned_part(s) =~= v@.subrange(start as int, hi as int));
    if start == hi {
        return None;
    }
    let limit: u64 = if negative { (isize::MAX as u64) + 1 } else { isize::MAX as u64 };
    match digits_up_to(v, start, hi, limit) {
        Some(m) => {
            if negative {
                let wide: i128 = -(m as i128);
                Some(wide as isize)
            } else {
                Some(m as isize)
            }
        },
        None => None,
    }
}

/// Parses `v[lo..hi]` as a `usize` (`str::parse::<usize>`).
pub fn parse_usize_range(v: &Vec<char>, lo: usize, hi: usize) -> (r: Option<usize>)
    requires
        lo <= hi <= v.len(),
    ensures
        match r {
            Some(n) => parse_usize_spec(v@.subrange(lo as int, hi as int)) == Some(n as nat),
            None => parse_usize_spec(v@.subrange(lo as int, hi as int)) is None,
        },
{
    let ghost s = v@.subrange(lo as int, hi as int);
    if lo == hi {
        return None;
    }
    let start = if v[lo] == '+' { lo + 1 } else { lo };
    if start == hi {
        return None;
    }
    let ghost body = if s.len() > 0 && s[0] == '+' { s.drop_first() } else { s };
    assert(body =~= v@.subrange(start as int, hi as int));
    match digits_up_to(v, start, hi, usize::MAX as u64) {
        Some(m) => Some(m as usize),
        None => None,
    }
}

/// Parses a whole string slice as an `isize`.
pub fn parse_isize(s: &str) -> (r: Option<isize>)
    ensures
        match r {
            Some(n) => parse_isize_spec(s@) == Some(n as int),
            None => parse_isize_spec(s@) is None,
        },
{
    let v = to_chars(s);
    assert(v@.subrange(0, v@.len() as int) =~= s@);
    parse_isize_range(&v, 0, v.len())
}

/// Parses a whole string slice as a `usize`.
pub fn parse_usize(s: &str) -> (r: Option<usize>)
    ensures
        match r {
            Some(n) => parse_usize_spec(s@) == Some(n as nat),
            None => parse_usize_spec(s@) is None,
        },
{
    let v = to_chars(s);
    assert(v@.subrange(0, v@.len() as int) =~= s@);
    parse_usize_range(&v, 0, v.len())
}

pub proof fn lemma_digit_char(d: nat)
    requires
        d < 10,
    ensures
        is_digit(digit_char(d)),
        digit_value(digit_char(d)) == d,
{
}

pub proof fn lemma_nat_to_decimal_digits(n: nat)
    ensures
        all_digits(nat_to_decimal(n)),
        digits_value(nat_to_decimal(n)) == n,
        nat_to_decimal(n).len() > 0,
        is_digit(nat_to_decimal(n)[0]),
    decreases n,
{
    lemma_digit_char(n % 10);
    if n >= 10 {
        lemma_nat_to_decimal_digits(n / 10);
        lemma_digits_value_push(nat_to_decimal(n / 10), digit_char(n % 10));
        assert(n == (n / 10) * 10 + n % 10);
    } else {
        lemma_digits_value_push(Seq::<char>::empty(), digit_char(n));
        assert(Seq::<char>::empty().push(digit_char(n)) =~= nat_to_decimal(n));
    }
}

/// Printing a number in decimal and parsing it back gives the number.
pub proof fn lemma_parse_isize_of_decimal(i: int)
    requires
        isize::MIN <= i <= isize::MAX,
    ensures
        parse_isize_spec(int_to_decimal(i)) == Some(i),
{
    if i < 0 {
        lemma_nat_to_decimal_digits((-i) as nat);
        assert((seq!['-'] + nat_to_decimal((-i) as nat)).drop_first() =~= nat_to_decimal((-i) as nat));
    } else {
        lemma_nat_to_decimal_digits(i as nat);
    }
}

/// Printing a natural number in decimal and parsing it back gives the number.
pub proof fn lemma_parse_usize_of_decimal(n: nat)
    requires
        n <= usize::MAX,
    ensures
        parse_usize_spec(nat_to_decimal(n)) == Some(n),
{
    lemma_nat_to_decimal_digits(n);
}


/// `i` is the position of the first `c` in `s`.
pub open spec fn is_first_index(s: Seq<char>, c: char, i: int) -> bool {
    &&& 0 <= i < s.len()
    &&& s[i] == c
    &&& forall|j: int| 0 <= j < i ==> s[j] != c
}

/// The position of the first `c` in `s`, if `s` holds one.
pub open spec fn first_index(s: Seq<char>, c: char) -> Option<int> {
    if exists|i: int| is_first_index(s, c, i) {
        Some(choose|i: int| is_first_index(s, c, i))
    } else {
        None
    }
}

pub proof fn lemma_first_index_unique(s: Seq<char>, c: char, i: int)
    requires
        is_first_index(s, c, i),
    ensures
        first_index(s, c) == Some(i),
{
    let k = choose|k: int| is_first_index(s, c, k);
    assert(is_first_index(s, c, k));
    if k < i {
        assert(s[k] != c);
    } else if k > i {
        assert(s[i] != c);
    }
}

/// Number of bytes of the UTF-8 encoding of `s`.
pub open spec fn byte_count(s: Seq<char>) -> nat {
    (vstd::utf8::encode_utf8(s).len() as usize) as nat
}

/// The length in bytes of a string (`String::len`).
pub fn byte_len(s: &String) -> (n: usize)
    ensures
        n as nat == byte_count(s@),
{
    s.as_str().len()
}

/// Position of the first `c` in `v`, if any.
pub fn find_char(v: &Vec<char>, c: char) -> (r: Option<usize>)
    ensures
        match r {
            Some(i) => is_first_index(v@, c, i as int) && first_index(v@, c) == Some(i as int),
            None => first_index(v@, c) is None && forall|j: int| 0 <= j < v@.len() ==> v@[j] != c,
        },
{
    let mut i: usize = 0;
    while i < v.len()
        invariant
            i <= v.len(),
            forall|j: int| 0 <= j < i ==> v@[j] != c,
        decreases v.len() - i,
    {
        if v[i] == c {
            proof {
                lemma_first_index_unique(v@, c, i as int);
            }
            return Some(i);
        }
        i = i + 1;
    }
    None
}

/// What splitting at the first line terminator gives: the text before the
/// first `\r` and the text after the `\r\n` that it starts; when the first
/// `\r` is not followed by `\n`, no text and the input without the character
/// after that `\r`.
pub open spec fn crlf_split(s: Seq<char>) -> (Option<Seq<char>>, Seq<char>) {
    match first_index(s, '\r') {
        None => (None, s),
        Some(i) => if s[i + 1] == '\n' {
            (Some(s.take(i)), s.skip(i + 2))
        } else {
            (None, s.remove(i + 1))
        },
    }
}

/// The first `\r` of `s`, if there is one, is not its last character.
pub open spec fn crlf_split_safe(s: Seq<char>) -> bool {
    match first_index(s, '\r') {
        None => true,
        Some(i) => i + 1 < s.len(),
    }
}

/// Whether the first `\r` of `s`, if there is one, is not its last
/// character.
pub fn crlf_safe(s: &str) -> (b: bool)
    ensures
        b == crlf_split_safe(s@),
{
    let v = to_chars(s);
    match find_char(&v, '\r') {
        None => true,
        Some(i) => v.len() - i > 1,
    }
}

/// Splits `s` at its first `\r\n`, as `crlf_split` says.
pub fn split_first_crlf(s: &str) -> (r: (Option<String>, String))
    requires
        crlf_split_safe(s@),
    ensures
        crlf_split(s@) == (
            match r.0 {
                Some(head) => Some(head@),
                None => None,
            },
            r.1@,
        ),
{
    let v = to_chars(s);
    match find_char(&v, '\r') {
        None => {
            let rest = string_from_range(&v, 0, v.len());
            assert(v@.subrange(0, v@.len() as int) =~= v@);
            (None, rest)
        },
        Some(i) => {
            if v[i + 1] == '\n' {
                let head = string_from_range(&v, 0, i);
                let rest = string_from_range(&v, i + 2, v.len());
                assert(v@.subrange(0, i as int) =~= v@.take(i as int));
                assert(v@.subrange(i + 2, v@.len() as int) =~= v@.skip(i + 2));
                (Some(head), rest)
            } else {
                let mut rest = string_from_range(&v, 0, i + 1);
                let tail = string_from_range(&v, i + 2, v.len());
                push_text(&mut rest, tail.as_str());
                assert(rest@ =~= v@.remove(i + 1));
                (None, rest)
            }
        },
    }
}


/// A line without the carriage return that ends it, if any.
pub open spec fn strip_cr(line: Seq<char>) -> Seq<char> {
    if line.len() > 0 && line.last() == '\r' {
        line.drop_last()
    } else {
        line
    }
}

/// A line without the carriage return that ends it, if any.
pub fn strip_line(line: String) -> (r: String)
    ensures
        r@ == strip_cr(line@),
{
    let v = to_chars(line.as_str());
    if v.len() > 0 && v[v.len() - 1] == '\r' {
        let r = string_from_range(&v, 0, v.len() - 1);
        assert(v@.subrange(0, v@.len() - 1) =~= line@.drop_last());
        r
    } else {
        line
    }
}

/// A line without the `\n` (or `\r\n`) that ends it, if any.
pub open spec fn without_line_end(line: Seq<char>) -> Seq<char> {
    if line.len() > 0 && line.last() == '\n' {
        strip_cr(line.drop_last())
    } else {
        line
    }
}

/// Drops the `\n` (or `\r\n`) that ends a line.
pub fn drop_line_end(line: &str) -> (r: String)
    ensures
        r@ == without_line_end(line@),
{
    let v = to_chars(line);
    if v.len() > 0 && v[v.len() - 1] == '\n' {
        let body = string_from_range(&v, 0, v.len() - 1);
        assert(v@.subrange(0, v@.len() - 1) =~= line@.drop_last());
        strip_line(body)
    } else {
        string_from_range(&v, 0, v.len())
    }
}

/// `s` holds no line feed.
pub open spec fn no_lf(s: Seq<char>) -> bool {
    forall|i: int| 0 <= i < s.len() ==> s[i] != '\n'
}

pub proof fn lemma_decimal_no_lf(i: int)
    ensures
        no_lf(int_to_decimal(i)),
        no_lf(nat_to_decimal(if i < 0 { 0 } else { i } as nat)),
{
    if i < 0 {
        lemma_nat_to_decimal_digits((-i) as nat);
        let s = seq!['-'] + nat_to_decimal((-i) as nat);
        assert forall|j: int| 0 <= j < s.len() implies s[j] != '\n' by {
            if j > 0 {
                assert(s[j] == nat_to_decimal((-i) as nat)[j - 1]);
                assert(is_digit(nat_to_decimal((-i) as nat)[j - 1]));
            }
        }
        lemma_nat_to_decimal_digits(0);
    } else {
        lemma_nat_to_decimal_digits(i as nat);
        let d = nat_to_decimal(i as nat);
        assert forall|j: int| 0 <= j < d.len() implies #[trigger] d[j] != '\n' by {
            assert(is_digit(d[j]));
        }
    }
}

/// The lines of a text, as `BufRead::lines` gives them: the text is cut at
/// each `\n`, a `\r` just before it is dropped, and a last line without
/// `\n` is kept as it is.
pub open spec fn text_lines(s: Seq<char>) -> Seq<Seq<char>>
    decreases s.len(),
{
    if s.len() == 0 {
        Seq::empty()
    } else {
        match first_index(s, '\n') {
            Some(i) => if 0 <= i < s.len() {
                seq![strip_cr(s.take(i))] + text_lines(s.skip(i + 1))
            } else {
                Seq::empty()
            },
            None => seq![s],
        }
    }
}

/// A text whose first `\n` is at `k` gives its first line, then the lines
/// of what follows the `\n`.
pub proof fn lemma_text_lines_step(s: Seq<char>, k: int)
    requires
        0 <= k < s.len(),
        s[k] == '\n',
        forall|j: int| 0 <= j < k ==> s[j] != '\n',
    ensures
        text_lines(s) == seq![strip_cr(s.take(k))] + text_lines(s.skip(k + 1)),
{
    assert(is_first_index(s, '\n', k));
    lemma_first_index_unique(s, '\n', k);
}

/// A nonempty text with no `\n` is one line.
pub proof fn lemma_text_lines_last(s: Seq<char>)
    requires
        s.len() > 0,
        no_lf(s),
    ensures
        text_lines(s) == seq![s],
{
    if exists|i: int| is_first_index(s, '\n', i) {
        let i = choose|i: int| is_first_index(s, '\n', i);
        assert(s[i] == '\n');
    }
}

/// A line with no `\n`, ended by `\r\n`, is the first line of the text.
pub proof fn lemma_text_lines_cons(t: Seq<char>, rest: Seq<char>)
    requires
        no_lf(t),
    ensures
        text_lines(t + crlf() + rest) == seq![t] + text_lines(rest),
{
    let s = t + crlf() + rest;
    let k = t.len() as int + 1;
    assert(s[k - 1] == '\r');
    assert(s[k] == '\n');
    assert forall|j: int| 0 <= j < k implies s[j] != '\n' by {
        if j < t.len() {
            assert(s[j] == t[j]);
        }
    }
    lemma_text_lines_step(s, k);
    assert(s.take(k).drop_last() =~= t);
    assert(s.skip(k + 1) =~= rest);
}

/// The lines of a text (`BufRead::lines`).
pub fn lines_of(text: &str) -> (v: Vec<String>)
    ensures
        v@.map_values(|l: String| l@) == text_lines(text@),
{
    let c = to_chars(text);
    let mut v: Vec<String> = Vec::new();
    let mut start: usize = 0;
    let mut j: usize = 0;
    assert(c@.skip(0) =~= c@);
    assert(v@.map_values(|l: String| l@) + text_lines(c@) =~= text_lines(c@));
    while j < c.len()
        invariant
            start <= j <= c.len(),
            c@ == text@,
            v@.map_values(|l: String| l@) + text_lines(c@.skip(start as int)) == text_lines(c@),
            forall|k: int| start <= k < j ==> c@[k] != '\n',
        decreases c.len() - j,
    {
        if c[j] == '\n' {
            let ghost tail = c@.skip(start as int);
            proof {
                assert forall|k: int| 0 <= k < j - start implies tail[k] != '\n' by {
                    assert(tail[k] == c@[start + k]);
                }
                lemma_text_lines_step(tail, j - start);
                assert(tail.take(j - start) =~= c@.subrange(start as int, j as int));
                assert(tail.skip(j - start + 1) =~= c@.skip(j + 1));
            }
            let line = strip_line(string_from_range(&c, start, j));
            let ghost before = v@.map_values(|l: String| l@);
            v.push(line);
            assert(v@.map_values(|l: String| l@) =~= before.push(line@));
            assert(before.push(line@) + text_lines(c@.skip(j + 1)) =~= before + (seq![line@] + text_lines(
                c@.skip(j + 1),
            )));
            start = j + 1;
        }
        j = j + 1;
    }
    if start < c.len() {
        let ghost tail = c@.skip(start as int);
        proof {
            assert forall|k: int| 0 <= k < tail.len() implies tail[k] != '\n' by {
                assert(tail[k] == c@[start + k]);
            }
            lemma_text_lines_last(tail);
        }
        let line = string_from_range(&c, start, c.len());
        assert(line@ =~= tail);
        let ghost before = v@.map_values(|l: String| l@);
        v.push(line);
        assert(v@.map_values(|l: String| l@) =~= before.push(line@));
        assert(before + seq![tail] =~= before.push(line@));
    } else {
        assert(c@.skip(start as int) =~= Seq::<char>::empty());
        assert(v@.map_values(|l: String| l@) + Seq::<Seq<char>>::empty() =~= v@.map_values(|l: String| l@));
    }
    v
}

/// `s` holds no carriage return.
pub open spec fn no_cr(s: Seq<char>) -> bool {
    forall|i: int| 0 <= i < s.len() ==> s[i] != '\r'
}

/// A line followed by `\r\n` splits into that line and what follows.
pub proof fn lemma_crlf_split_line(t: Seq<char>, rest: Seq<char>)
    requires
        no_cr(t),
    ensures
        crlf_split(t + crlf() + rest) == (Some(t), rest),
        crlf_split_safe(t + crlf() + rest),
{
    let s = t + crlf() + rest;
    assert(s[t.len() as int] == '\r');
    assert(s[t.len() as int + 1] == '\n');
    assert forall|j: int| 0 <= j < t.len() implies s[j] != '\r' by {
        assert(s[j] == t[j]);
    }
    lemma_first_index_unique(s, '\r', t.len() as int);
    assert(s.take(t.len() as int) =~= t);
    assert(s.skip(t.len() as int + 2) =~= rest);
}

pub proof fn lemma_decimal_no_cr(i: int)
    ensures
        no_cr(int_to_decimal(i)),
        no_cr(nat_to_decimal(if i < 0 { 0 } else { i } as nat)),
{
    if i < 0 {
        lemma_nat_to_decimal_digits((-i) as nat);
        let s = seq!['-'] + nat_to_decimal((-i) as nat);
        assert forall|j: int| 0 <= j < s.len() implies s[j] != '\r' by {
            if j > 0 {
                assert(s[j] == nat_to_decimal((-i) as nat)[j - 1]);
                assert(is_digit(nat_to_decimal((-i) as nat)[j - 1]));
            }
        }
        lemma_nat_to_decimal_digits(0);
    } else {
        lemma_nat_to_decimal_digits(i as nat);
        let d = nat_to_decimal(i as nat);
        assert forall|j: int| 0 <= j < d.len() implies #[trigger] d[j] != '\r' by {
            assert(is_digit(d[j]));
        }
    }
}


/// The pieces of `s` between the occurrences of `c` (`str::split`).
pub open spec fn split_on(s: Seq<char>, c: char) -> Seq<Seq<char>>
    decreases s.len(),
{
    if s.len() == 0 {
        seq![Seq::empty()]
    } else {
        let pieces = split_on(s.drop_last(), c);
        if s.last() == c {
            pieces.push(Seq::empty())
        } else {
            pieces.update(pieces.len() - 1, pieces.last().push(s.last()))
        }
    }
}

/// Splits `s` at each `c`.
pub fn split_by_char(s: &str, c: char) -> (pieces: Vec<String>)
    ensures
        pieces@.map_values(|p: String| p@) == split_on(s@, c),
        pieces.len() >= 1,
{
    let v = to_chars(s);
    let mut pieces: Vec<String> = Vec::new();
    let mut current = String::new();
    let mut i: usize = 0;
    while i < v.len()
        invariant
            i <= v.len(),
            v@ == s@,
            pieces@.map_values(|p: String| p@).push(current@) == split_on(v@.take(i as int), c),
        decreases v.len() - i,
    {
        let x = v[i];
        let ghost before = pieces@.map_values(|p: String| p@).push(current@);
        assert(v@.take(i + 1).drop_last() =~= v@.take(i as int));
        if x == c {
            let done = current;
            pieces.push(done);
            current = String::new();
            assert(pieces@.map_values(|p: String| p@).push(current@) =~= before.push(Seq::empty()));
        } else {
            push_char(&mut current, x);
            assert(pieces@.map_values(|p: String| p@).push(current@) =~= before.update(
                before.len() - 1,
                before.last().push(x),
            ));
        }
        i = i + 1;
    }
    assert(v@.take(v@.len() as int) =~= v@);
    let ghost all = pieces@.map_values(|p: String| p@).push(current@);
    pieces.push(current);
    assert(pieces@.map_values(|p: String| p@) =~= all);
    pieces
}


/// The first character of `s` and the string of the others
/// (`String::remove(0)`).
pub fn split_first_char(s: &str) -> (r: (char, String))
    requires
        s@.len() > 0,
    ensures
        r.0 == s@[0],
        r.1@ == s@.drop_first(),
{
    let v = to_chars(s);
    let rest = string_from_range(&v, 1, v.len());
    assert(v@.subrange(1, v@.len() as int) =~= s@.drop_first());
    (v[0], rest)
}

/// Whether two texts are equal.
pub fn same_text(a: &str, b: &str) -> (r: bool)
    ensures
        r == (a@ == b@),
{
    let x = string_of(a);
    let y = string_of(b);
    x == y
}


/// Whether `c` has the Unicode White_Space property (`char::is_whitespace`).
pub open spec fn is_white(c: char) -> bool {
    let n = c as u32;
    (9 <= n <= 13) || n == 32 || n == 0x85 || n == 0xA0 || n == 0x1680 || (0x2000 <= n <= 0x200A)
        || n == 0x2028 || n == 0x2029 || n == 0x202F || n == 0x205F || n == 0x3000
}

/// Whether `c` is white space, as `is_white` says.
pub fn is_whitespace(c: char) -> (b: bool)
    ensures
        b == is_white(c),
{
    let n = c as u32;
    (9 <= n && n <= 13) || n == 32 || n == 0x85 || n == 0xA0 || n == 0x1680 || (0x2000 <= n && n
        <= 0x200A) || n == 0x2028 || n == 0x2029 || n == 0x202F || n == 0x205F || n == 0x3000
}

/// The pieces of `s` between its white space characters, empty ones
/// included.
pub open spec fn split_white(s: Seq<char>) -> Seq<Seq<char>>
    decreases s.len(),
{
    if s.len() == 0 {
        seq![Seq::empty()]
    } else {
        let pieces = split_white(s.drop_last());
        if is_white(s.last()) {
            pieces.push(Seq::empty())
        } else {
            pieces.update(pieces.len() - 1, pieces.last().push(s.last()))
        }
    }
}

/// Whether a piece is not empty.
pub open spec fn nonempty_piece() -> spec_fn(Seq<char>) -> bool {
    |w: Seq<char>| w.len() > 0
}

/// The words of `s`: the nonempty pieces between white space
/// (`str::split_whitespace`).
pub open spec fn words_of(s: Seq<char>) -> Seq<Seq<char>> {
    split_white(s).filter(nonempty_piece())
}

/// The words of `s`, in order.
pub fn split_whitespace(s: &str) -> (words: Vec<String>)
    ensures
        words@.map_values(|w: String| w@) == words_of(s@),
{
    let v = to_chars(s);
    let mut words: Vec<String> = Vec::new();
    let mut current = String::new();
    let mut i: usize = 0;
    while i < v.len()
        invariant
            i <= v@.len(),
            v@ == s@,
            split_white(v@.take(i as int)).len() > 0,
            words@.map_values(|w: String| w@) == split_white(v@.take(i as int)).drop_last().filter(
                nonempty_piece(),
            ),
            current@ == split_white(v@.take(i as int)).last(),
        decreases v@.len() - i,
    {
        let ghost prefix = v@.take(i as int);
        let ghost pieces = split_white(prefix);
        proof {
            assert(v@.take(i + 1).drop_last() =~= prefix);
            assert(v@.take(i + 1).last() == v@[i as int]);
            pieces.drop_last().lemma_filter_push(pieces.last(), nonempty_piece());
            assert(pieces.drop_last().push(pieces.last()) =~= pieces);
        }
        let c = v[i];
        if is_whitespace(c) {
            if !current.as_str().is_empty() {
                let ghost before = words@.map_values(|w: String| w@);
                words.push(current);
                assert(words@.map_values(|w: String| w@) =~= before.push(pieces.last()));
            }
            current = String::new();
            proof {
                assert(split_white(v@.take(i + 1)) == pieces.push(Seq::empty()));
                assert(pieces.push(Seq::<char>::empty()).drop_last() =~= pieces);
            }
        } else {
            let ghost before = current@;
            push_char(&mut current, c);
            proof {
                let next = pieces.update(pieces.len() - 1, pieces.last().push(c));
                assert(split_white(v@.take(i + 1)) == next);
                assert(next.drop_last() =~= pieces.drop_last());
            }
        }
        i = i + 1;
    }
    proof {
        let pieces = split_white(v@);
        assert(v@.take(v@.len() as int) =~= v@);
        pieces.drop_last().lemma_filter_push(pieces.last(), nonempty_piece());
        assert(pieces.drop_last().push(pieces.last()) =~= pieces);
    }
    if !current.as_str().is_empty() {
        let ghost before = words@.map_values(|w: String| w@);
        words.push(current);
        assert(words@.map_values(|w: String| w@) =~= before.push(split_white(s@).last()));
    }
    words
}

} // verus!
