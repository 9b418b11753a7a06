//! The dump of the key space: what a snapshot writes and what a restore
//! reads back.
//!
//! Each key that has not expired is written as four fields: its time to
//! live in seconds (-1 when it never expires) and the number of its kind
//! (0: string, 1: list, 2: set), both as RESP integers, then the key as a
//! RESP simple string, then the value: a simple string for a string, an
//! array of bulk strings for a list or a set.
use vstd::prelude::*;

use std::collections::VecDeque;

use super::{entry_view, Database, KeySpace, TypeSaved, TypeSavedView};
use crate::messages::redis_messages;
use crate::native_types::redis_type::{
    array_encoding, bulk_encoding, bulk_error, bulks_encoding, error_view, integer_encoding, nil_text,
    parse_error, parse_failure, simple_string_encoding, strings_view,
};
use crate::native_types::{lemma_bulks_encoding_front, ErrorStruct, RArray, RInteger, RSimpleString, RedisType};
use crate::redis_config::RedisConfig;
use crate::string_map::{entries_map, key_texts, lemma_key_at, texts, StringSet};
use crate::text::{
    byte_count, byte_len, crlf, int_to_decimal, lemma_decimal_no_lf, lemma_digit_char,
    lemma_parse_isize_of_decimal, lemma_text_lines_cons, lines_of, nat_to_decimal, no_lf,
    parse_isize, parse_isize_spec, split_first_char, string_of, text_lines,
};
use crate::time_expiration::expire_info::{
    deadline_after, expired, now_nanos, seconds_left, ttl_spec, ExpireInfo, NANOS_PER_SEC,
};

verus! {

/// The number that stands for the kind of a value.
pub open spec fn case_number(v: TypeSavedView) -> int {
    match v {
        TypeSavedView::String(_) => 0,
        TypeSavedView::List(_) => 1,
        TypeSavedView::Sets(_) => 2,
    }
}

/// The items of a list or a set, in the order in which they are kept.
pub open spec fn value_items(v: TypeSaved) -> Seq<Seq<char>> {
    match v {
        TypeSaved::String(_) => Seq::empty(),
        TypeSaved::List(l) => l@.map_values(|s: String| s@),
        TypeSaved::Sets(s) => texts(s.members@),
    }
}

/// How a value is written.
pub open spec fn value_dump(v: TypeSaved) -> Seq<char> {
    match v {
        TypeSaved::String(s) => simple_string_encoding(s@),
        _ => array_encoding(value_items(v)),
    }
}

/// The time to live that is written for a key: the whole seconds left at
/// the time `now`, or -1 when the key never expires.
pub open spec fn ttl_number(deadline: Option<u64>, now: u64) -> int {
    match ttl_spec(deadline, now) {
        Some(t) => (t as isize) as int,
        None => -1,
    }
}

/// How one key is written.
pub open spec fn record_dump(key: Seq<char>, deadline: Option<u64>, value: TypeSaved, now: u64) -> Seq<char> {
    integer_encoding(ttl_number(deadline, now)) + integer_encoding(case_number(value@))
        + simple_string_encoding(key) + value_dump(value)
}

/// How an entry is written at the time `now`: nothing when it has expired.
pub open spec fn entry_dump(e: (String, (ExpireInfo, TypeSaved)), now: u64) -> Seq<char> {
    if expired(e.1.0.deadline, now) {
        Seq::empty()
    } else {
        record_dump(e.0@, e.1.0.deadline, e.1.1, now)
    }
}

/// The dump of the entries at the time `now`, in their order.
pub open spec fn snapshot_text(entries: Seq<(String, (ExpireInfo, TypeSaved))>, now: u64) -> Seq<char>
    decreases entries.len(),
{
    if entries.len() == 0 {
        Seq::empty()
    } else {
        entry_dump(entries[0], now) + snapshot_text(entries.drop_first(), now)
    }
}

/// The dump of entries with one more at the end is the dump of the first
/// ones, then that of the last.
pub proof fn lemma_snapshot_push(entries: Seq<(String, (ExpireInfo, TypeSaved))>, e: (String, (ExpireInfo, TypeSaved)), now: u64)
    ensures
        snapshot_text(entries.push(e), now) == snapshot_text(entries, now) + entry_dump(e, now),
    decreases entries.len(),
{
    if entries.len() == 0 {
        assert(entries.push(e).drop_first() =~= Seq::<(String, (ExpireInfo, TypeSaved))>::empty());
        assert(snapshot_text(entries.push(e).drop_first(), now) == Seq::<char>::empty());
        assert(entries.push(e)[0] == e);
        assert(snapshot_text(entries.push(e), now) =~= snapshot_text(entries, now) + entry_dump(e, now));
    } else {
        lemma_snapshot_push(entries.drop_first(), e, now);
        assert(entries.push(e).drop_first() =~= entries.drop_first().push(e));
        assert(snapshot_text(entries.push(e), now) =~= snapshot_text(entries, now) + entry_dump(e, now));
    }
}

/// Appends `string` as a simple string.
fn write_string(string: &str, out: &mut String)
    ensures
        final(out)@ == old(out)@ + simple_string_encoding(string@),
{
    let encoded = RSimpleString::encode(crate::text::string_of(string));
    crate::text::push_text(out, encoded.as_str());
}

/// Appends `number` as an integer.
fn write_integer(number: isize, out: &mut String)
    ensures
        final(out)@ == old(out)@ + integer_encoding(number as int),
{
    let encoded = RInteger::encode(number);
    crate::text::push_text(out, encoded.as_str());
}

/// Appends `vector` as an array of bulk strings.
fn write_array(vector: Vec<String>, out: &mut String)
    ensures
        final(out)@ == old(out)@ + array_encoding(vector@.map_values(|s: String| s@)),
{
    let ghost items = vector@.map_values(|s: String| s@);
    let encoded = RArray::encode(vector);
    assert(crate::native_types::redis_type::strings_view(vector@) =~= items);
    crate::text::push_text(out, encoded.as_str());
}

/// The items of a list or a set, in the order in which they are kept.
fn items_of(typesaved: &TypeSaved) -> (v: Vec<String>)
    ensures
        v@.map_values(|s: String| s@) == value_items(*typesaved),
{
    let mut v: Vec<String> = Vec::new();
    match typesaved {
        TypeSaved::String(_) => {},
        TypeSaved::List(values) => {
            let mut i: usize = 0;
            while i < values.len()
                invariant
                    i <= values@.len(),
                    v@.len() == i,
                    forall|j: int| 0 <= j < i ==> #[trigger] v@[j]@ == values@[j]@,
                decreases values@.len() - i,
            {
                v.push(values[i].clone());
                i = i + 1;
            }
        },
        TypeSaved::Sets(values) => {
            let mut i: usize = 0;
            while i < values.members.len()
                invariant
                    i <= values.members@.len(),
                    v@.len() == i,
                    forall|j: int| 0 <= j < i ==> #[trigger] v@[j]@ == values.members@[j]@,
                decreases values.members@.len() - i,
            {
                v.push(values.members[i].clone());
                i = i + 1;
            }
        },
    }
    assert(v@.map_values(|s: String| s@) =~= value_items(*typesaved));
    v
}

/// Appends the kind, the key and the value of an entry.
fn persist_data(key: &str, out: &mut String, typesaved: &TypeSaved)
    ensures
        final(out)@ == old(out)@ + integer_encoding(case_number(typesaved@)) + simple_string_encoding(
            key@,
        ) + value_dump(*typesaved),
{
    match typesaved {
        TypeSaved::String(value) => {
            write_integer(0, out);
            write_string(key, out);
            write_string(value.as_str(), out);
        },
        TypeSaved::List(_) => {
            write_integer(1, out);
            write_string(key, out);
            write_array(items_of(typesaved), out);
        },
        TypeSaved::Sets(_) => {
            write_integer(2, out);
            write_string(key, out);
            write_array(items_of(typesaved), out);
        },
    }
    assert(out@ =~= old(out)@ + integer_encoding(case_number(typesaved@)) + simple_string_encoding(key@)
        + value_dump(*typesaved));
}

impl Database {
    /// The dump of every key that has not expired at the time `now`, in the
    /// order in which the keys are kept.
    pub fn snapshot_at(&self, now: u64) -> (text: String)
        ensures
            text@ == snapshot_text(self.elements.entries@, now),
    {
        let mut text = String::new();
        let mut i: usize = 0;
        while i < self.elements.entries.len()
            invariant
                i <= self.elements.entries@.len(),
                text@ == snapshot_text(self.elements.entries@.take(i as int), now),
            decreases self.elements.entries@.len() - i,
        {
            let entry = &self.elements.entries[i];
            let ghost before = text@;
            if !entry.1.0.is_expired(now) {
                let time: isize = match entry.1.0.ttl(now) {
                    Some(t) => t as isize,
                    None => -1,
                };
                write_integer(time, &mut text);
                persist_data(entry.0.as_str(), &mut text, &entry.1.1);
            }
            proof {
                let es = self.elements.entries@;
                assert(es.take(i + 1) =~= es.take(i as int).push(es[i as int]));
                lemma_snapshot_push(es.take(i as int), es[i as int], now);
                assert(text@ =~= before + entry_dump(es[i as int], now));
            }
            i = i + 1;
        }
        assert(self.elements.entries@.take(self.elements.entries@.len() as int) =~= self.elements.entries@);
        text
    }

    /// The dump of the key space at the time `now`; refused when the
    /// database has no configuration to say where the dump goes.
    pub fn take_snapshot_at(&self, now: u64) -> (r: Result<String, ErrorStruct>)
        ensures
            match r {
                Ok(text) => self.redis_config is Some && text@ == snapshot_text(self.elements.entries@, now),
                Err(e) => self.redis_config is None && e.prefix@ == "INSTAPANIC"@ && e.message@
                    == "no redis config available"@,
            },
    {
        if self.redis_config.is_none() {
            return Err(ErrorStruct::from(redis_messages::unexpected_behaviour("no redis config available")));
        }
        Ok(self.snapshot_at(now))
    }

    /// The dump of the key space now: every key that has not expired, with
    /// the seconds it has left. See SAVE.
    pub fn take_snapshot(&self) -> (r: Result<String, ErrorStruct>)
        ensures
            match r {
                Ok(text) => self.redis_config is Some && exists|now: u64|
                    text@ == snapshot_text(self.elements.entries@, now),
                Err(e) => self.redis_config is None && e.prefix@ == "INSTAPANIC"@ && e.message@
                    == "no redis config available"@,
            },
            r matches Ok(text) ==> exists|now: u64|
                #![trigger snapshot_text(self.elements.entries@, now)]
                now >= self.time && text@ == snapshot_text(self.elements.entries@, now),
    {
        let now = self.clock_now();
        let r = self.take_snapshot_at(now);
        assert(r matches Ok(text) ==> text@ == snapshot_text(self.elements.entries@, now));
        r
    }
}


/// An error while reading a dump: its prefix and its message.
pub type Failure = (Seq<char>, Seq<char>);

/// A key read back from a dump, with its deadline and its value.
pub type DumpRecord = (Seq<char>, (Option<u64>, TypeSavedView));

/// The lines of a dump that are left to read.
pub type Lines = Seq<Seq<char>>;

/// The dump ends where a field was to come, or a field is an empty line.
pub open spec fn read_error() -> Failure {
    ("ERR"@, "Something interrupted file read"@)
}

/// A field starts with another type byte than the one expected.
pub open spec fn unexpected_char_error() -> Failure {
    ("INSTAPANIC"@, "unexpected char found at dump"@)
}

/// The kind of a value is none of 0, 1 and 2.
pub open spec fn unknown_case_error() -> Failure {
    ("INSTAPANIC"@, "unknown case found at dump"@)
}

/// A time to live that puts the deadline past what the clock can hold.
pub open spec fn ttl_error() -> Failure {
    ("TTL"@, "an error occurred with the epoch expiration"@)
}

/// An integer field that is no integer.
pub open spec fn integer_error() -> Failure {
    parse_error("Failed to parse redis integer"@)
}

/// Reads the field of type byte `c` on the first line; gives the line
/// without its type byte and the lines after it.
pub open spec fn field_line(ls: Lines, c: char) -> Result<(Seq<char>, Lines), Failure> {
    if ls.len() == 0 || ls[0].len() == 0 {
        Err(read_error())
    } else if ls[0][0] != c {
        Err(unexpected_char_error())
    } else {
        Ok((ls[0].drop_first(), ls.drop_first()))
    }
}

/// Reads an integer field.
pub open spec fn integer_line(ls: Lines) -> Result<(int, Lines), Failure> {
    match field_line(ls, ':') {
        Err(e) => Err(e),
        Ok((t, rest)) => match parse_isize_spec(t) {
            Some(n) => Ok((n, rest)),
            None => Err(integer_error()),
        },
    }
}

/// Reads one bulk string of an array: its size on a line, then, but for
/// the size -1 of `(nil)`, its text on the next line, which must have that
/// many bytes.
pub open spec fn bulk_line(ls: Lines) -> Result<(Seq<char>, Lines), Failure> {
    if ls.len() == 0 || ls[0].len() == 0 {
        Err(read_error())
    } else if ls[0][0] != '$' {
        Err(parse_error("Failed to parse Redis array (3)"@))
    } else {
        match parse_isize_spec(ls[0].drop_first()) {
            None => Err(bulk_error()),
            Some(size) => if size == -1 {
                Ok((nil_text(), ls.drop_first()))
            } else if size < 0 || ls.len() < 2 || byte_count(ls[1]) != size {
                Err(bulk_error())
            } else {
                Ok((ls[1], ls.skip(2)))
            },
        }
    }
}

/// Reads `n` bulk strings in turn.
pub open spec fn bulk_lines(ls: Lines, n: nat) -> Result<(Seq<Seq<char>>, Lines), Failure>
    decreases n,
{
    if n == 0 {
        Ok((Seq::empty(), ls))
    } else {
        match bulk_line(ls) {
            Err(e) => Err(e),
            Ok((x, rest)) => match bulk_lines(rest, (n - 1) as nat) {
                Err(e) => Err(e),
                Ok((xs, rest2)) => Ok((seq![x] + xs, rest2)),
            },
        }
    }
}

/// Reads an array field: its number of elements, then the elements; an
/// empty array is refused.
pub open spec fn array_line(ls: Lines) -> Result<(Seq<Seq<char>>, Lines), Failure> {
    match field_line(ls, '*') {
        Err(e) => Err(e),
        Ok((t, rest)) => match parse_isize_spec(t) {
            None => Err(parse_error("Failed to parse Redis array (2)"@)),
            Some(n) => if n == 0 {
                Err(("ERR_EMPTY"@, "(empty array)"@))
            } else if n < 1 {
                Err(parse_error("Failed to parse Redis array (1)"@))
            } else {
                bulk_lines(rest, n as nat)
            },
        },
    }
}

/// The deadline that a time to live read at the time `now` gives: none for
/// a negative one.
pub open spec fn deadline_of(ttl: int, now: u64) -> Result<Option<u64>, Failure> {
    if ttl >= 0 {
        match deadline_after(ttl as u64, now) {
            Some(d) => Ok(Some(d)),
            None => Err(ttl_error()),
        }
    } else {
        Ok(None)
    }
}

/// Reads the time to live of a key at the time `now`; gives its deadline.
pub open spec fn expire_line(ls: Lines, now: u64) -> Result<(Option<u64>, Lines), Failure> {
    match integer_line(ls) {
        Err(e) => Err(e),
        Ok((ttl, rest)) => match deadline_of(ttl, now) {
            Err(e) => Err(e),
            Ok(d) => Ok((d, rest)),
        },
    }
}

/// Reads the kind of a value.
pub open spec fn case_line(ls: Lines) -> Result<(int, Lines), Failure> {
    match integer_line(ls) {
        Err(e) => Err(e),
        Ok((case, rest)) => if 0 <= case <= 2 {
            Ok((case, rest))
        } else {
            Err(unknown_case_error())
        },
    }
}

/// Reads a value of the kind `case`.
pub open spec fn value_line(case: int, ls: Lines) -> Result<(TypeSavedView, Lines), Failure> {
    if case == 0 {
        match field_line(ls, '+') {
            Err(e) => Err(e),
            Ok((t, rest)) => Ok((TypeSavedView::String(t), rest)),
        }
    } else {
        match array_line(ls) {
            Err(e) => Err(e),
            Ok((v, rest)) => if case == 1 {
                Ok((TypeSavedView::List(v), rest))
            } else {
                Ok((TypeSavedView::Sets(v.to_set()), rest))
            },
        }
    }
}

/// Reads one key at the time `now`: its time to live, its kind, the key
/// and the value.
pub open spec fn record_lines(ls: Lines, now: u64) -> Result<(DumpRecord, Lines), Failure> {
    match expire_line(ls, now) {
        Err(e) => Err(e),
        Ok((d, l1)) => match case_line(l1) {
            Err(e) => Err(e),
            Ok((case, l2)) => match field_line(l2, '+') {
                Err(e) => Err(e),
                Ok((key, l3)) => match value_line(case, l3) {
                    Err(e) => Err(e),
                    Ok((v, l4)) => Ok(((key, (d, v)), l4)),
                },
            },
        },
    }
}

/// Reads every key of the lines at the time `now`, in order; the first
/// error stops the reading.
pub open spec fn dump_lines(ls: Lines, now: u64) -> Result<Seq<DumpRecord>, Failure>
    decreases ls.len(),
{
    if ls.len() == 0 {
        Ok(Seq::empty())
    } else {
        match record_lines(ls, now) {
            Err(e) => Err(e),
            Ok((rec, rest)) => if rest.len() < ls.len() {
                match dump_lines(rest, now) {
                    Ok(recs) => Ok(seq![rec] + recs),
                    Err(e) => Err(e),
                }
            } else {
                Err(read_error())
            },
        }
    }
}

/// Reads every key of a dump at the time `now`, in order, line by line
/// (`BufRead::lines`); the first error stops the reading.
pub open spec fn dump_decode(s: Seq<char>, now: u64) -> Result<Seq<DumpRecord>, Failure> {
    dump_lines(text_lines(s), now)
}

/// The key space that the records give when each is set in turn.
pub open spec fn restored_space(recs: Seq<DumpRecord>) -> KeySpace
    decreases recs.len(),
{
    if recs.len() == 0 {
        KeySpace::empty()
    } else {
        restored_space(recs.drop_last()).insert(recs.last().0, recs.last().1)
    }
}

/// Reading bulk strings never adds lines.
pub proof fn lemma_bulk_lines_len(ls: Lines, n: nat)
    ensures
        bulk_lines(ls, n) matches Ok((_, rest)) ==> rest.len() <= ls.len(),
    decreases n,
{
    if n > 0 {
        if let Ok((_, rest)) = bulk_line(ls) {
            lemma_bulk_lines_len(rest, (n - 1) as nat);
        }
    }
}

/// Reading a key consumes some of the lines.
pub proof fn lemma_record_lines_shorter(ls: Lines, now: u64)
    ensures
        record_lines(ls, now) matches Ok((_, rest)) ==> rest.len() < ls.len(),
{
    if let Ok((_, rest)) = record_lines(ls, now) {
        let (_, l1) = expire_line(ls, now)->Ok_0;
        let (case, l2) = case_line(l1)->Ok_0;
        let (_, l3) = field_line(l2, '+')->Ok_0;
        if case != 0 {
            let (_, t) = field_line(l3, '*')->Ok_0;
            let n = parse_isize_spec(l3[0].drop_first())->Some_0;
            lemma_bulk_lines_len(t, n as nat);
        }
    }
}

/// The lines from `i` on.
pub open spec fn lines_from(lines: Seq<String>, i: int) -> Lines {
    strings_view(lines).skip(i)
}

/// Reads the field of type byte `c` on the line `i`.
fn field_at(lines: &Vec<String>, i: usize, c: char) -> (r: Result<String, ErrorStruct>)
    requires
        i <= lines@.len(),
    ensures
        match field_line(lines_from(lines@, i as int), c) {
            Ok((t, rest)) => r matches Ok(x) && x@ == t && i < lines@.len() && rest == lines_from(
                lines@,
                i + 1,
            ),
            Err(e) => r matches Err(x) && error_view(x) == e,
        },
{
    let ghost ls = lines_from(lines@, i as int);
    if i >= lines.len() {
        return Err(ErrorStruct::from(redis_messages::file_read_error()));
    }
    assert(ls[0] == lines@[i as int]@);
    let line = &lines[i];
    if line.as_str().is_empty() {
        return Err(ErrorStruct::from(redis_messages::file_read_error()));
    }
    let (first, rest) = split_first_char(line.as_str());
    if first != c {
        return Err(ErrorStruct::from(redis_messages::unexpected_behaviour("unexpected char found at dump")));
    }
    assert(ls.drop_first() =~= lines_from(lines@, i + 1));
    Ok(rest)
}

/// Reads the integer field on the line `i`.
fn integer_at(lines: &Vec<String>, i: usize) -> (r: Result<isize, ErrorStruct>)
    requires
        i <= lines@.len(),
    ensures
        match integer_line(lines_from(lines@, i as int)) {
            Ok((n, rest)) => r matches Ok(m) && m == n && i < lines@.len() && rest == lines_from(
                lines@,
                i + 1,
            ),
            Err(e) => r matches Err(x) && error_view(x) == e,
        },
{
    let t = field_at(lines, i, ':')?;
    match parse_isize(t.as_str()) {
        Some(n) => Ok(n),
        None => Err(parse_failure("Failed to parse redis integer")),
    }
}

/// Reads the bulk string that starts on the line `i`; gives it and the
/// line after it.
fn bulk_at(lines: &Vec<String>, i: usize) -> (r: Result<(String, usize), ErrorStruct>)
    requires
        i <= lines@.len(),
    ensures
        match bulk_line(lines_from(lines@, i as int)) {
            Ok((x, rest)) => r matches Ok((y, j)) && y@ == x && i < j <= lines@.len() && rest
                == lines_from(lines@, j as int),
            Err(e) => r matches Err(y) && error_view(y) == e,
        },
{
    let ghost ls = lines_from(lines@, i as int);
    if i >= lines.len() || lines[i].as_str().is_empty() {
        return Err(ErrorStruct::from(redis_messages::file_read_error()));
    }
    assert(ls[0] == lines@[i as int]@);
    let (first, size_text) = split_first_char(lines[i].as_str());
    if first != '$' {
        return Err(parse_failure("Failed to parse Redis array (3)"));
    }
    let size = match parse_isize(size_text.as_str()) {
        Some(size) => size,
        None => {
            return Err(parse_failure("Failed to parse redis bulk string"));
        },
    };
    if size == -1 {
        let nil = redis_messages::nil();
        proof {
            reveal_strlit("(nil)");
        }
        assert(nil@ =~= nil_text());
        assert(ls.drop_first() =~= lines_from(lines@, i + 1));
        return Ok((nil, i + 1));
    }
    if size < 0 || i + 1 >= lines.len() {
        return Err(parse_failure("Failed to parse redis bulk string"));
    }
    assert(ls[1] == lines@[i + 1]@);
    if byte_len(&lines[i + 1]) != size as usize {
        return Err(parse_failure("Failed to parse redis bulk string"));
    }
    assert(ls.skip(2) =~= lines_from(lines@, i + 2));
    Ok((lines[i + 1].clone(), i + 2))
}

/// The items read so far followed by what reading the rest gives.
pub open spec fn after_items(
    done: Seq<Seq<char>>,
    later: Result<(Seq<Seq<char>>, Lines), Failure>,
) -> Result<(Seq<Seq<char>>, Lines), Failure> {
    match later {
        Ok((xs, rest)) => Ok((done + xs, rest)),
        Err(e) => Err(e),
    }
}

/// Reads the array field on the line `i`; gives its items and the line
/// after it.
fn array_at(lines: &Vec<String>, i: usize) -> (r: Result<(Vec<String>, usize), ErrorStruct>)
    requires
        i <= lines@.len(),
    ensures
        match array_line(lines_from(lines@, i as int)) {
            Ok((v, rest)) => r matches Ok((y, j)) && strings_view(y@) == v && i < j <= lines@.len()
                && rest == lines_from(lines@, j as int),
            Err(e) => r matches Err(y) && error_view(y) == e,
        },
{
    let count = lines.len();
    let t = field_at(lines, i, '*')?;
    let n = match parse_isize(t.as_str()) {
        Some(n) => n,
        None => {
            return Err(parse_failure("Failed to parse Redis array (2)"));
        },
    };
    if n == 0 {
        return Err(ErrorStruct::new(string_of("ERR_EMPTY"), string_of("(empty array)")));
    }
    if n < 1 {
        return Err(parse_failure("Failed to parse Redis array (1)"));
    }
    let ghost total = bulk_lines(lines_from(lines@, i + 1), n as nat);
    assert(array_line(lines_from(lines@, i as int)) == total);
    let mut items: Vec<String> = Vec::new();
    let mut j: usize = i + 1;
    let mut k: usize = 0;
    assert(after_items(Seq::empty(), total) == total) by {
        if let Ok((xs, _)) = total {
            assert(Seq::<Seq<char>>::empty() + xs =~= xs);
        }
    }
    while k < n as usize
        invariant
            i < j <= lines@.len(),
            count == lines@.len(),
            0 < n,
            k <= n,
            total == bulk_lines(lines_from(lines@, i + 1), n as nat),
            array_line(lines_from(lines@, i as int)) == total,
            total == after_items(strings_view(items@), bulk_lines(lines_from(lines@, j as int), (n - k) as nat)),
        decreases n - k,
    {
        let ghost before = strings_view(items@);
        let ghost ls = lines_from(lines@, j as int);
        let (x, next) = match bulk_at(lines, j) {
            Ok(found) => found,
            Err(e) => {
                assert(bulk_lines(ls, (n - k) as nat) == Err::<(Seq<Seq<char>>, Lines), Failure>(error_view(e)));
                return Err(e);
            },
        };
        proof {
            let later = bulk_lines(lines_from(lines@, next as int), (n - k - 1) as nat);
            if let Ok((xs, _)) = later {
                assert(before + (seq![x@] + xs) =~= before.push(x@) + xs);
            }
        }
        items.push(x);
        assert(strings_view(items@) =~= before.push(x@));
        j = next;
        k = k + 1;
    }
    assert(bulk_lines(lines_from(lines@, j as int), 0) == Ok::<(Seq<Seq<char>>, Lines), Failure>(
        (Seq::empty(), lines_from(lines@, j as int)),
    ));
    assert(strings_view(items@) + Seq::<Seq<char>>::empty() =~= strings_view(items@));
    Ok((items, j))
}

/// The set of the texts of `items`.
fn set_of(items: Vec<String>) -> (s: StringSet)
    ensures
        s.wf(),
        s@ == strings_view(items@).to_set(),
{
    let ghost v = strings_view(items@);
    let mut s = StringSet::new();
    let mut i: usize = 0;
    assert(v.take(0).to_set() =~= Set::<Seq<char>>::empty());
    while i < items.len()
        invariant
            i <= items@.len(),
            v == strings_view(items@),
            s.wf(),
            s@ == v.take(i as int).to_set(),
        decreases items@.len() - i,
    {
        s.insert(items[i].clone());
        proof {
            assert(v.take(i + 1) =~= v.take(i as int).push(v[i as int]));
            v.take(i as int).lemma_push_to_set_commute(v[i as int]);
        }
        i = i + 1;
    }
    assert(v.take(items@.len() as int) =~= v);
    s
}

/// The list of `items`, in order.
fn list_of(items: Vec<String>) -> (l: VecDeque<String>)
    ensures
        l@.map_values(|s: String| s@) == strings_view(items@),
{
    let mut l: VecDeque<String> = VecDeque::new();
    let mut i: usize = 0;
    while i < items.len()
        invariant
            i <= items@.len(),
            l@.len() == i,
            forall|j: int| 0 <= j < i ==> #[trigger] l@[j]@ == items@[j]@,
        decreases items@.len() - i,
    {
        l.push_back(items[i].clone());
        i = i + 1;
    }
    assert(l@.map_values(|s: String| s@) =~= strings_view(items@));
    l
}

/// Reads the time to live on the line `i` at the time `now`; gives the
/// expiration.
fn get_expire_info(lines: &Vec<String>, i: usize, now: u64) -> (r: Result<ExpireInfo, ErrorStruct>)
    requires
        i <= lines@.len(),
    ensures
        match expire_line(lines_from(lines@, i as int), now) {
            Ok((d, rest)) => r matches Ok(info) && info.deadline == d && i < lines@.len() && rest
                == lines_from(lines@, i + 1),
            Err(e) => r matches Err(x) && error_view(x) == e,
        },
{
    let ttl_decoded = integer_at(lines, i)?;
    let mut expire_info = ExpireInfo::new();
    if ttl_decoded >= 0 {
        expire_info.set_timeout(ttl_decoded as u64, now)?;
    }
    Ok(expire_info)
}

/// Reads the kind of a value on the line `i`: 0, 1 or 2.
fn decode_case(lines: &Vec<String>, i: usize) -> (r: Result<isize, ErrorStruct>)
    requires
        i <= lines@.len(),
    ensures
        match case_line(lines_from(lines@, i as int)) {
            Ok((n, rest)) => r matches Ok(m) && m == n && i < lines@.len() && rest == lines_from(
                lines@,
                i + 1,
            ),
            Err(e) => r matches Err(x) && error_view(x) == e,
        },
{
    let value = integer_at(lines, i)?;
    get_case(value)
}

/// Keeps a kind among 0, 1 and 2; refuses any other.
fn get_case(value: isize) -> (r: Result<isize, ErrorStruct>)
    ensures
        0 <= value <= 2 ==> r == Ok::<isize, ErrorStruct>(value),
        !(0 <= value <= 2) ==> (r matches Err(x) && error_view(x) == unknown_case_error()),
{
    if value == 0 || value == 1 || value == 2 {
        return Ok(value);
    }
    Err(ErrorStruct::from(redis_messages::unexpected_behaviour("unknown case found at dump")))
}

/// Reads the key on the line `i`.
fn decode_key(lines: &Vec<String>, i: usize) -> (r: Result<String, ErrorStruct>)
    requires
        i <= lines@.len(),
    ensures
        match field_line(lines_from(lines@, i as int), '+') {
            Ok((x, rest)) => r matches Ok(y) && y@ == x && i < lines@.len() && rest == lines_from(
                lines@,
                i + 1,
            ),
            Err(e) => r matches Err(y) && error_view(y) == e,
        },
{
    field_at(lines, i, '+')
}

/// Reads a value of the kind `type_decoded` from the line `i` on; gives it
/// and the line after it.
fn decode_value(lines: &Vec<String>, i: usize, type_decoded: isize) -> (r: Result<(TypeSaved, usize), ErrorStruct>)
    requires
        i <= lines@.len(),
        0 <= type_decoded <= 2,
    ensures
        match value_line(type_decoded as int, lines_from(lines@, i as int)) {
            Ok((v, rest)) => r matches Ok((x, j)) && x@ == v && x.wf() && i < j <= lines@.len() && rest
                == lines_from(lines@, j as int),
            Err(e) => r matches Err(x) && error_view(x) == e,
        },
{
    get_matching_typesaved(type_decoded, lines, i)
}

/// Reads a string, a list or a set, as `type_decoded` says, from the line
/// `i` on.
fn get_matching_typesaved(type_decoded: isize, lines: &Vec<String>, i: usize) -> (r: Result<(TypeSaved, usize), ErrorStruct>)
    requires
        i <= lines@.len(),
        0 <= type_decoded <= 2,
    ensures
        match value_line(type_decoded as int, lines_from(lines@, i as int)) {
            Ok((v, rest)) => r matches Ok((x, j)) && x@ == v && x.wf() && i < j <= lines@.len() && rest
                == lines_from(lines@, j as int),
            Err(e) => r matches Err(x) && error_view(x) == e,
        },
{
    let count = lines.len();
    if type_decoded == 0 {
        let value = field_at(lines, i, '+')?;
        Ok((TypeSaved::String(value), i + 1))
    } else if type_decoded == 1 {
        let (value, j) = array_at(lines, i)?;
        Ok((TypeSaved::List(list_of(value)), j))
    } else {
        let (value, j) = array_at(lines, i)?;
        Ok((TypeSaved::Sets(set_of(value)), j))
    }
}

/// Reads one key at the time `now` from the line `i` on: the key, its
/// expiration, its value and the line after them.
fn read_record(lines: &Vec<String>, i: usize, now: u64) -> (r: Result<(String, ExpireInfo, TypeSaved, usize), ErrorStruct>)
    requires
        i <= lines@.len(),
    ensures
        match record_lines(lines_from(lines@, i as int), now) {
            Ok((rec, rest)) => r matches Ok((key, info, value, j)) && rec == (key@, (info.deadline, value@))
                && value.wf() && i < j <= lines@.len() && rest == lines_from(lines@, j as int),
            Err(e) => r matches Err(x) && error_view(x) == e,
        },
{
    let count = lines.len();
    let expire_info = get_expire_info(lines, i, now)?;
    let type_decoded = decode_case(lines, i + 1)?;
    let key_decoded = decode_key(lines, i + 2)?;
    let (value_decoded, j) = decode_value(lines, i + 3, type_decoded)?;
    Ok((key_decoded, expire_info, value_decoded, j))
}

/// Reading one more key keeps what the whole dump gives as the records read
/// so far followed by what the rest gives.
pub proof fn lemma_restore_step(
    whole: Seq<char>,
    recs: Seq<DumpRecord>,
    before: Lines,
    rec: DumpRecord,
    rest: Lines,
    now: u64,
)
    requires
        before.len() > 0,
        dump_decode(whole, now) == after_records(recs, dump_lines(before, now)),
        record_lines(before, now) == Ok::<(DumpRecord, Lines), Failure>((rec, rest)),
    ensures
        dump_decode(whole, now) == after_records(recs.push(rec), dump_lines(rest, now)),
{
    lemma_record_lines_shorter(before, now);
    match dump_lines(rest, now) {
        Ok(rs) => {
            assert(recs + (seq![rec] + rs) =~= recs.push(rec) + rs);
        },
        Err(e) => {},
    }
}

/// Setting one more record sets it over what the others give.
pub proof fn lemma_restored_space_push(recs: Seq<DumpRecord>, rec: DumpRecord)
    ensures
        restored_space(recs.push(rec)) == restored_space(recs).insert(rec.0, rec.1),
{
    assert(recs.push(rec).drop_last() =~= recs);
}

/// The records read so far followed by what reading the rest gives.
pub open spec fn after_records(done: Seq<DumpRecord>, later: Result<Seq<DumpRecord>, Failure>) -> Result<Seq<DumpRecord>, Failure> {
    match later {
        Ok(recs) => Ok(done + recs),
        Err(e) => Err(e),
    }
}

impl Database {
    /// The database that a dump holds, read line by line at the time `now`,
    /// with the configuration `config`. Each key is set in turn, with the
    /// deadline its time to live gives from `now`. A dump that cannot be
    /// read is refused with the error of the first field that fails.
    pub fn new_from_at(config: RedisConfig, dump: String, now: u64) -> (r: Result<Database, ErrorStruct>)
        ensures
            match r {
                Ok(db) => db.wf() && db.redis_config == Some(config) && (dump_decode(dump@, now) matches Ok(recs)
                    && db@ == restored_space(recs)),
                Err(e) => dump_decode(dump@, now) == Err::<Seq<DumpRecord>, Failure>(error_view(e)),
            },
            r matches Ok(db) ==> db.time == now,
    {
        let ghost whole = dump@;
        let lines = lines_of(dump.as_str());
        let mut database = Database::new();
        database.set_redis_config(config);
        database.time = now;
        let ghost mut recs: Seq<DumpRecord> = Seq::empty();
        let mut i: usize = 0;
        assert(database@ =~= restored_space(recs));
        assert(lines_from(lines@, 0) =~= text_lines(whole));
        proof {
            if let Ok(rs) = dump_lines(lines_from(lines@, 0), now) {
                assert(recs + rs =~= rs);
            }
        }
        while i < lines.len()
            invariant
                whole == dump@,
                i <= lines@.len(),
                database.wf(),
                database.redis_config == Some(config),
                database.time == now,
                database@ == restored_space(recs),
                dump_decode(whole, now) == after_records(recs, dump_lines(lines_from(lines@, i as int), now)),
            decreases lines@.len() - i,
        {
            let ghost before = lines_from(lines@, i as int);
            let (key_decoded, expire_info, value_decoded, next) = match read_record(&lines, i, now) {
                Ok(record) => record,
                Err(e) => {
                    assert(dump_lines(before, now) == Err::<Seq<DumpRecord>, Failure>(error_view(e)));
                    return Err(e);
                },
            };
            let ghost rec: DumpRecord = (key_decoded@, (expire_info.deadline, value_decoded@));
            proof {
                lemma_restore_step(whole, recs, before, rec, lines_from(lines@, next as int), now);
                lemma_restored_space_push(recs, rec);
            }
            database.insert_entry(key_decoded, expire_info, value_decoded);
            proof {
                recs = recs.push(rec);
            }
            i = next;
        }
        assert(lines_from(lines@, i as int) =~= Seq::<Seq<char>>::empty());
        assert(recs + Seq::<DumpRecord>::empty() =~= recs);
        Ok(database)
    }

    /// The database that a dump holds, read now, with the configuration
    /// `config`; see `new_from_at`.
    pub fn new_from(config: RedisConfig, dump: String) -> (r: Result<Database, ErrorStruct>)
        ensures
            match r {
                Ok(db) => db.wf() && db.redis_config == Some(config) && exists|now: u64|
                    #![trigger dump_decode(dump@, now)]
                    (dump_decode(dump@, now) matches Ok(recs) && db@ == restored_space(recs)),
                Err(e) => exists|now: u64|
                    #![trigger dump_decode(dump@, now)]
                    dump_decode(dump@, now) == Err::<Seq<DumpRecord>, Failure>(error_view(e)),
            },
            r matches Ok(db) ==> (dump_decode(dump@, db.time) matches Ok(recs) && db@ == restored_space(recs)),
    {
        let now = now_nanos();
        Database::new_from_at(config, dump, now)
    }
}


/// A deadline a whole number of seconds from `now`, if any.
pub open spec fn whole_seconds_after(deadline: Option<u64>, now: u64) -> bool {
    deadline matches Some(d) ==> now <= d && (d - now) % (NANOS_PER_SEC as int) == 0
}

/// Every key read from lines at the time `now` expires, if it does, a
/// whole number of seconds after `now`.
pub proof fn lemma_dump_lines_deadlines(ls: Lines, now: u64, recs: Seq<DumpRecord>)
    requires
        dump_lines(ls, now) == Ok::<Seq<DumpRecord>, Failure>(recs),
    ensures
        forall|j: int| 0 <= j < recs.len() ==> whole_seconds_after(#[trigger] recs[j].1.0, now),
    decreases ls.len(),
{
    if ls.len() > 0 {
        let (rec, rest) = record_lines(ls, now)->Ok_0;
        let more = dump_lines(rest, now)->Ok_0;
        lemma_dump_lines_deadlines(rest, now, more);
        let (ttl, _) = integer_line(ls)->Ok_0;
        if ttl >= 0 {
            let t = ttl as u64;
            assert((t * NANOS_PER_SEC) % (NANOS_PER_SEC as int) == 0) by (nonlinear_arith);
        }
        assert(recs == seq![rec] + more);
        assert forall|j: int| 0 <= j < recs.len() implies whole_seconds_after(#[trigger] recs[j].1.0, now) by {
            if j > 0 {
                assert(recs[j] == more[j - 1]);
            }
        }
    } else {
        assert(recs.len() == 0);
    }
}

/// The key space set from records whose deadlines are whole seconds after
/// `now` holds only such deadlines.
pub proof fn lemma_restored_space_deadlines(recs: Seq<DumpRecord>, now: u64)
    requires
        forall|j: int| 0 <= j < recs.len() ==> whole_seconds_after(#[trigger] recs[j].1.0, now),
    ensures
        forall|k: Seq<char>| #[trigger] restored_space(recs).contains_key(k) ==> whole_seconds_after(
            restored_space(recs)[k].0,
            now,
        ),
    decreases recs.len(),
{
    if recs.len() > 0 {
        let init = recs.drop_last();
        assert forall|j: int| 0 <= j < init.len() implies whole_seconds_after(#[trigger] init[j].1.0, now) by {
            assert(init[j] == recs[j]);
        }
        lemma_restored_space_deadlines(init, now);
        let last = recs[recs.len() - 1];
        assert(whole_seconds_after(last.1.0, now));
        assert(restored_space(recs) == restored_space(init).insert(last.0, last.1));
        assert forall|k: Seq<char>| #[trigger] restored_space(recs).contains_key(k) implies whole_seconds_after(
            restored_space(recs)[k].0,
            now,
        ) by {
            if k != last.0 {
                assert(restored_space(init).contains_key(k));
            }
        }
    }
}

/// A key restored from a dump at the time `now` (`new_from` restores at
/// the time of the database it gives) with a time to live of `t` seconds
/// expires `t` seconds after `now`: at `now` it is there with `t` seconds
/// left, at any later time it has no more than `t` left, and it stays until
/// those seconds have passed.
pub proof fn law_restored_key_time_left(
    dump: Seq<char>,
    now: u64,
    recs: Seq<DumpRecord>,
    key: Seq<char>,
    later: u64,
)
    requires
        dump_decode(dump, now) == Ok::<Seq<DumpRecord>, Failure>(recs),
        restored_space(recs).contains_key(key),
    ensures
        ({
            let deadline = restored_space(recs)[key].0;
            deadline matches Some(d) ==> {
                &&& now <= d
                &&& ttl_spec(deadline, now) matches Some(t) && d == now + t * NANOS_PER_SEC
                &&& later >= now ==> ttl_spec(deadline, later)->Some_0 <= ttl_spec(deadline, now)->Some_0
                &&& later < d ==> !expired(deadline, later)
            }
        }),
{
    lemma_dump_lines_deadlines(text_lines(dump), now, recs);
    lemma_restored_space_deadlines(recs, now);
    let deadline = restored_space(recs)[key].0;
    if let Some(d) = deadline {
        let q: int = (d - now) / (NANOS_PER_SEC as int);
        assert(d - now == q * NANOS_PER_SEC) by (nonlinear_arith)
            requires
                (d - now) % 1000000000int == 0,
                q == (d - now) / 1000000000int,
        ;
        assert(seconds_left(d, now) == q || d == now);
        if later >= now && later < d {
            assert((d - later) / 1000000000int <= q) by (nonlinear_arith)
                requires
                    0 < d - later <= d - now,
                    q == (d - now) / 1000000000int,
            ;
        }
    }
}

/// What a restore at the time `later` makes of a deadline that a snapshot
/// at the time `now` saw: the same whole seconds left, counted from `later`.
pub open spec fn restored_deadline(deadline: Option<u64>, now: u64, later: u64) -> Option<u64> {
    match deadline {
        Some(d) => deadline_after(seconds_left(d, now) as u64, later),
        None => None,
    }
}

/// An entry that a snapshot at the time `now` writes so that a restore at
/// the time `later` reads it back: its key and strings hold no line feed,
/// its list or set is not empty, and its time to live fits.
pub open spec fn restorable_entry(e: (String, (ExpireInfo, TypeSaved)), now: u64, later: u64) -> bool {
    &&& no_lf(e.0@)
    &&& match ttl_spec(e.1.0.deadline, now) {
        Some(t) => t <= isize::MAX && deadline_after(t, later) is Some,
        None => true,
    }
    &&& match e.1.1 {
        TypeSaved::String(v) => no_lf(v@),
        _ => 0 < value_items(e.1.1).len() <= isize::MAX && forall|i: int|
            0 <= i < value_items(e.1.1).len() ==> line_storable(#[trigger] value_items(e.1.1)[i]),
    }
}

/// Every entry that has not expired at the time `now` is restorable.
pub open spec fn snapshot_restorable(entries: Seq<(String, (ExpireInfo, TypeSaved))>, now: u64, later: u64) -> bool {
    forall|i: int|
        0 <= i < entries.len() && !expired(entries[i].1.0.deadline, now) ==> #[trigger] restorable_entry(
            entries[i],
            now,
            later,
        )
}

/// The records that a restore at the time `later` should read back from a
/// snapshot of the entries at the time `now`: each entry that had not
/// expired, in order.
pub open spec fn live_records(entries: Seq<(String, (ExpireInfo, TypeSaved))>, now: u64, later: u64) -> Seq<DumpRecord>
    decreases entries.len(),
{
    if entries.len() == 0 {
        Seq::empty()
    } else {
        let e = entries[0];
        let rest = live_records(entries.drop_first(), now, later);
        if expired(e.1.0.deadline, now) {
            rest
        } else {
            seq![(e.0@, (restored_deadline(e.1.0.deadline, now, later), e.1.1@))] + rest
        }
    }
}

/// An integer field is read back as it was written, as one line.
pub proof fn lemma_integer_lines(n: int, rest: Seq<char>)
    requires
        isize::MIN <= n <= isize::MAX,
    ensures
        text_lines(integer_encoding(n) + rest) == seq![seq![':'] + int_to_decimal(n)] + text_lines(rest),
        integer_line(text_lines(integer_encoding(n) + rest)) == Ok::<(int, Lines), Failure>(
            (n, text_lines(rest)),
        ),
{
    let line = seq![':'] + int_to_decimal(n);
    lemma_decimal_no_lf(n);
    assert forall|j: int| 0 <= j < line.len() implies line[j] != '\n' by {
        if j > 0 {
            assert(line[j] == int_to_decimal(n)[j - 1]);
        }
    }
    assert(integer_encoding(n) + rest =~= line + crlf() + rest);
    lemma_text_lines_cons(line, rest);
    let ls = seq![line] + text_lines(rest);
    assert(ls[0] == line);
    assert(line.drop_first() =~= int_to_decimal(n));
    assert(ls.drop_first() =~= text_lines(rest));
    lemma_parse_isize_of_decimal(n);
}

/// A simple string field with no line feed is read back as it was written.
pub proof fn lemma_text_lines_field(t: Seq<char>, rest: Seq<char>)
    requires
        no_lf(t),
    ensures
        field_line(text_lines(simple_string_encoding(t) + rest), '+') == Ok::<(Seq<char>, Lines), Failure>(
            (t, text_lines(rest)),
        ),
{
    let line = seq!['+'] + t;
    assert forall|j: int| 0 <= j < line.len() implies line[j] != '\n' by {
        if j > 0 {
            assert(line[j] == t[j - 1]);
        }
    }
    assert(simple_string_encoding(t) + rest =~= line + crlf() + rest);
    lemma_text_lines_cons(line, rest);
    let ls = seq![line] + text_lines(rest);
    assert(ls[0] == line);
    assert(line.drop_first() =~= t);
    assert(ls.drop_first() =~= text_lines(rest));
}

/// A text that a line of a dump holds as it is: no line feed, and a size in
/// bytes that an `isize` holds.
pub open spec fn line_storable(t: Seq<char>) -> bool {
    no_lf(t) && byte_count(t) <= isize::MAX
}

/// A bulk string is read back as it was written.
pub proof fn lemma_bulk_line_roundtrip(t: Seq<char>, rest: Seq<char>)
    requires
        line_storable(t),
    ensures
        bulk_line(text_lines(bulk_encoding(t) + rest)) == Ok::<(Seq<char>, Lines), Failure>(
            (t, text_lines(rest)),
        ),
{
    if t == nil_text() {
        let line = seq!['$', '-', '1'];
        assert(bulk_encoding(t) + rest =~= line + crlf() + rest);
        lemma_text_lines_cons(line, rest);
        let ls = seq![line] + text_lines(rest);
        assert(ls[0] == line);
        lemma_digit_char(1);
        assert(nat_to_decimal(1) =~= seq!['1']);
        assert(line.drop_first() =~= int_to_decimal(-1));
        lemma_parse_isize_of_decimal(-1);
        assert(ls.drop_first() =~= text_lines(rest));
    } else {
        let size = byte_count(t);
        let head = seq!['$'] + nat_to_decimal(size);
        lemma_decimal_no_lf(size as int);
        assert forall|j: int| 0 <= j < head.len() implies head[j] != '\n' by {
            if j > 0 {
                assert(head[j] == nat_to_decimal(size)[j - 1]);
            }
        }
        assert(bulk_encoding(t) + rest =~= head + crlf() + (t + crlf() + rest));
        lemma_text_lines_cons(head, t + crlf() + rest);
        lemma_text_lines_cons(t, rest);
        let ls = seq![head] + (seq![t] + text_lines(rest));
        assert(ls[0] == head);
        assert(ls[1] == t);
        assert(head.drop_first() =~= int_to_decimal(size as int));
        lemma_parse_isize_of_decimal(size as int);
        assert(ls.skip(2) =~= text_lines(rest));
    }
}

/// Bulk strings are read back, in turn, as they were written.
pub proof fn lemma_bulks_lines_roundtrip(v: Seq<Seq<char>>, rest: Seq<char>)
    requires
        forall|i: int| 0 <= i < v.len() ==> line_storable(#[trigger] v[i]),
    ensures
        bulk_lines(text_lines(bulks_encoding(v) + rest), v.len()) == Ok::<(Seq<Seq<char>>, Lines), Failure>(
            (v, text_lines(rest)),
        ),
    decreases v.len(),
{
    if v.len() == 0 {
        assert(bulks_encoding(v) + rest =~= rest);
        assert(v =~= Seq::<Seq<char>>::empty());
    } else {
        lemma_bulks_encoding_front(v);
        let others = bulks_encoding(v.drop_first()) + rest;
        assert(bulks_encoding(v) + rest =~= bulk_encoding(v[0]) + others);
        lemma_bulk_line_roundtrip(v[0], others);
        assert forall|i: int| 0 <= i < v.drop_first().len() implies line_storable(#[trigger] v.drop_first()[i]) by {
            assert(v.drop_first()[i] == v[i + 1]);
        }
        lemma_bulks_lines_roundtrip(v.drop_first(), rest);
        assert(seq![v[0]] + v.drop_first() =~= v);
    }
}

/// A nonempty array is read back as it was written.
pub proof fn lemma_array_lines_roundtrip(v: Seq<Seq<char>>, rest: Seq<char>)
    requires
        0 < v.len() <= isize::MAX,
        forall|i: int| 0 <= i < v.len() ==> line_storable(#[trigger] v[i]),
    ensures
        array_line(text_lines(array_encoding(v) + rest)) == Ok::<(Seq<Seq<char>>, Lines), Failure>(
            (v, text_lines(rest)),
        ),
{
    let head = seq!['*'] + nat_to_decimal(v.len());
    lemma_decimal_no_lf(v.len() as int);
    assert forall|j: int| 0 <= j < head.len() implies head[j] != '\n' by {
        if j > 0 {
            assert(head[j] == nat_to_decimal(v.len())[j - 1]);
        }
    }
    let body = bulks_encoding(v) + rest;
    assert(array_encoding(v) + rest =~= head + crlf() + body);
    lemma_text_lines_cons(head, body);
    let ls = seq![head] + text_lines(body);
    assert(ls[0] == head);
    assert(head.drop_first() =~= int_to_decimal(v.len() as int));
    lemma_parse_isize_of_decimal(v.len() as int);
    assert(ls.drop_first() =~= text_lines(body));
    lemma_bulks_lines_roundtrip(v, rest);
}

/// A value is read back as it was written.
pub proof fn lemma_value_lines(v: TypeSaved, rest: Seq<char>)
    requires
        match v {
            TypeSaved::String(x) => no_lf(x@),
            _ => 0 < value_items(v).len() <= isize::MAX && forall|i: int|
                0 <= i < value_items(v).len() ==> line_storable(#[trigger] value_items(v)[i]),
        },
    ensures
        value_line(case_number(v@), text_lines(value_dump(v) + rest)) == Ok::<(TypeSavedView, Lines), Failure>(
            (v@, text_lines(rest)),
        ),
{
    match v {
        TypeSaved::String(x) => {
            lemma_text_lines_field(x@, rest);
        },
        _ => {
            lemma_array_lines_roundtrip(value_items(v), rest);
        },
    }
}

/// The time to live that a snapshot writes gives back, read later, the
/// restored deadline.
pub proof fn lemma_deadline_of(deadline: Option<u64>, now: u64, later: u64)
    requires
        match ttl_spec(deadline, now) {
            Some(t) => t <= isize::MAX && deadline_after(t, later) is Some,
            None => true,
        },
    ensures
        isize::MIN <= ttl_number(deadline, now) <= isize::MAX,
        deadline_of(ttl_number(deadline, now), later) == Ok::<Option<u64>, Failure>(
            restored_deadline(deadline, now, later),
        ),
{
}

/// A key written by a snapshot is read back as it was, and the reading stops
/// where the next one starts.
#[verifier::spinoff_prover]
pub proof fn lemma_record_roundtrip(e: (String, (ExpireInfo, TypeSaved)), now: u64, later: u64, rest: Seq<char>)
    requires
        !expired(e.1.0.deadline, now),
        restorable_entry(e, now, later),
    ensures
        text_lines(entry_dump(e, now) + rest).len() > 0,
        record_lines(text_lines(entry_dump(e, now) + rest), later) == Ok::<(DumpRecord, Lines), Failure>(
            ((e.0@, (restored_deadline(e.1.0.deadline, now, later), e.1.1@)), text_lines(rest)),
        ),
{
    let ttl = ttl_number(e.1.0.deadline, now);
    let case = case_number(e.1.1@);
    let key = e.0@;
    let r3 = value_dump(e.1.1) + rest;
    let r2 = simple_string_encoding(key) + r3;
    let r1 = integer_encoding(case) + r2;
    let s = entry_dump(e, now) + rest;
    let d = restored_deadline(e.1.0.deadline, now, later);
    assert(s =~= integer_encoding(ttl) + r1);
    assert(expire_line(text_lines(s), later) == Ok::<(Option<u64>, Lines), Failure>((d, text_lines(r1)))) by {
        lemma_deadline_of(e.1.0.deadline, now, later);
        lemma_integer_lines(ttl, r1);
    }
    assert(case_line(text_lines(r1)) == Ok::<(int, Lines), Failure>((case, text_lines(r2)))) by {
        lemma_integer_lines(case, r2);
    }
    assert(field_line(text_lines(r2), '+') == Ok::<(Seq<char>, Lines), Failure>((key, text_lines(r3)))) by {
        lemma_text_lines_field(key, r3);
    }
    assert(value_line(case, text_lines(r3)) == Ok::<(TypeSavedView, Lines), Failure>(
        (e.1.1@, text_lines(rest)),
    )) by {
        lemma_value_lines(e.1.1, rest);
    }
    lemma_integer_lines(ttl, r1);
}

/// Restoring a snapshot gives back, in order, every key that had not
/// expired when the snapshot was taken, with its value and with as many
/// whole seconds left as it had then.
#[verifier::spinoff_prover]
#[verifier::rlimit(40)]
pub proof fn law_snapshot_restore(entries: Seq<(String, (ExpireInfo, TypeSaved))>, now: u64, later: u64)
    requires
        snapshot_restorable(entries, now, later),
    ensures
        dump_decode(snapshot_text(entries, now), later) == Ok::<Seq<DumpRecord>, Failure>(
            live_records(entries, now, later),
        ),
    decreases entries.len(),
{
    if entries.len() == 0 {
        assert(snapshot_text(entries, now) =~= Seq::<char>::empty());
    } else {
        let e = entries[0];
        let tail = entries.drop_first();
        assert forall|i: int| 0 <= i < tail.len() && !expired(tail[i].1.0.deadline, now) implies #[trigger] restorable_entry(
            tail[i],
            now,
            later,
        ) by {
            assert(tail[i] == entries[i + 1]);
        }
        law_snapshot_restore(tail, now, later);
        let t = snapshot_text(tail, now);
        if expired(e.1.0.deadline, now) {
            assert(snapshot_text(entries, now) =~= t);
        } else {
            assert(restorable_entry(entries[0], now, later));
            lemma_record_roundtrip(e, now, later, t);
            let s = snapshot_text(entries, now);
            assert(s == entry_dump(e, now) + t);
            lemma_record_lines_shorter(text_lines(s), later);
        }
    }
}

/// The key space that a restore at the time `later` should give back from a
/// snapshot of `m` at the time `now`: the keys that had not expired, each
/// with its value and with as many whole seconds left as it had.
pub open spec fn live_space(m: KeySpace, now: u64, later: u64) -> KeySpace {
    Map::new(
        |k: Seq<char>| m.contains_key(k) && !expired(m[k].0, now),
        |k: Seq<char>| (restored_deadline(m[k].0, now, later), m[k].1),
    )
}

/// Setting a record before others gives what the others give, over that
/// record.
pub proof fn lemma_restored_space_prepend(r: DumpRecord, recs: Seq<DumpRecord>)
    ensures
        restored_space(seq![r] + recs) == KeySpace::empty().insert(r.0, r.1).union_prefer_right(
            restored_space(recs),
        ),
    decreases recs.len(),
{
    let first = KeySpace::empty().insert(r.0, r.1);
    if recs.len() == 0 {
        assert(seq![r] + recs =~= seq![r]);
        assert(seq![r].drop_last() =~= Seq::<DumpRecord>::empty());
        assert(seq![r].last() == r);
        assert(restored_space(Seq::<DumpRecord>::empty()) == KeySpace::empty());
        assert(restored_space(seq![r]) == KeySpace::empty().insert(r.0, r.1));
        assert(restored_space(recs) == KeySpace::empty());
        assert(restored_space(seq![r] + recs) =~= first.union_prefer_right(restored_space(recs)));
    } else {
        lemma_restored_space_prepend(r, recs.drop_last());
        assert((seq![r] + recs).drop_last() =~= seq![r] + recs.drop_last());
        assert((seq![r] + recs).last() == recs.last());
        assert(restored_space(seq![r] + recs) =~= first.union_prefer_right(restored_space(recs)));
    }
}

/// The map of entries whose keys are distinct is that of all but the
/// first, with the first set over it.
pub proof fn lemma_entries_map_front<V>(entries: Seq<(String, V)>)
    requires
        key_texts(entries).no_duplicates(),
        entries.len() > 0,
    ensures
        key_texts(entries.drop_first()).no_duplicates(),
        !entries_map(entries.drop_first()).contains_key(entries[0].0@),
        entries_map(entries) == entries_map(entries.drop_first()).insert(entries[0].0@, entries[0].1),
{
    let tail = entries.drop_first();
    let k0 = entries[0].0@;
    assert(key_texts(entries) =~= seq![k0] + key_texts(tail));
    assert forall|a: int, b: int| 0 <= a < b < key_texts(tail).len() implies key_texts(tail)[a]
        != key_texts(tail)[b] by {
        assert(key_texts(tail)[a] == key_texts(entries)[a + 1]);
        assert(key_texts(tail)[b] == key_texts(entries)[b + 1]);
    }
    if key_texts(tail).contains(k0) {
        let j = choose|j: int| 0 <= j < key_texts(tail).len() && key_texts(tail)[j] == k0;
        assert(key_texts(entries)[j + 1] == key_texts(entries)[0]);
    }
    lemma_key_at(entries, 0);
    assert forall|k: Seq<char>| #[trigger] entries_map(tail).contains_key(k) implies entries_map(entries).contains_key(k)
        && entries_map(entries)[k] == entries_map(tail)[k] by {
        let j = key_texts(tail).index_of(k);
        lemma_key_at(tail, j);
        lemma_key_at(entries, j + 1);
        assert(entries[j + 1] == tail[j]);
    }
    assert forall|k: Seq<char>| #[trigger] entries_map(entries).contains_key(k) && k != k0 implies entries_map(
        tail,
    ).contains_key(k) by {
        let j = key_texts(entries).index_of(k);
        assert(j != 0);
        assert(key_texts(tail)[j - 1] == k);
    }
    assert(entries_map(entries) =~= entries_map(tail).insert(k0, entries[0].1));
}

/// The records read back from a snapshot of entries whose keys are distinct
/// set exactly the keys that had not expired, each as it was.
pub proof fn lemma_live_records_space(entries: Seq<(String, (ExpireInfo, TypeSaved))>, now: u64, later: u64)
    requires
        key_texts(entries).no_duplicates(),
    ensures
        restored_space(live_records(entries, now, later)) == live_space(
            entries_map(entries).map_values(|e: (ExpireInfo, TypeSaved)| entry_view(e)),
            now,
            later,
        ),
    decreases entries.len(),
{
    let m = entries_map(entries).map_values(|e: (ExpireInfo, TypeSaved)| entry_view(e));
    if entries.len() == 0 {
        assert(restored_space(live_records(entries, now, later)) =~= live_space(m, now, later));
    } else {
        let e = entries[0];
        let tail = entries.drop_first();
        lemma_entries_map_front(entries);
        lemma_live_records_space(tail, now, later);
        let mt = entries_map(tail).map_values(|x: (ExpireInfo, TypeSaved)| entry_view(x));
        assert(m =~= mt.insert(e.0@, entry_view(e.1)));
        let rest = live_records(tail, now, later);
        if expired(e.1.0.deadline, now) {
            assert(live_space(m, now, later) =~= live_space(mt, now, later));
        } else {
            let r = (e.0@, (restored_deadline(e.1.0.deadline, now, later), e.1.1@));
            lemma_restored_space_prepend(r, rest);
            assert(live_records(entries, now, later) == seq![r] + rest);
            assert(restored_space(seq![r] + rest) =~= live_space(m, now, later));
        }
    }
}

/// Restoring the snapshot of a database gives back every key that had not
/// expired when the snapshot was taken, each with its value and with as
/// many whole seconds left as it had, and no other key.
pub proof fn law_database_snapshot_restore(db: Database, now: u64, later: u64)
    requires
        db.wf(),
        snapshot_restorable(db.elements.entries@, now, later),
    ensures
        dump_decode(snapshot_text(db.elements.entries@, now), later) matches Ok(recs)
            && restored_space(recs) == live_space(db@, now, later),
{
    law_snapshot_restore(db.elements.entries@, now, later);
    lemma_live_records_space(db.elements.entries@, now, later);
}


/// A restored key has, at the time of the restore, as many whole seconds
/// left as it had when the snapshot was taken.
pub proof fn law_restored_ttl(deadline: Option<u64>, now: u64, later: u64)
    requires
        deadline is Some ==> restored_deadline(deadline, now, later) is Some,
    ensures
        ttl_spec(restored_deadline(deadline, now, later), later) == ttl_spec(deadline, now),
{
    if let Some(d) = deadline {
        let t = seconds_left(d, now) as u64;
        let nd = restored_deadline(deadline, now, later)->Some_0;
        assert(nd == later + t * 1000000000);
        vstd::arithmetic::div_mod::lemma_div_by_multiple(t as int, 1000000000);
        if t > 0 {
            assert(t * 1000000000 > 0) by (nonlinear_arith)
                requires
                    t > 0,
            ;
        } else {
            assert(nd == later);
        }
    }
}

} // verus!
