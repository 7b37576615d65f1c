//! Journal entries and the JSON line that stores each one.
//!
//! A line is `{"timestamp":"<stored timestamp>","entry":<JSON string>}`; a
//! line is read as any JSON object with those two string members.
use vstd::prelude::*;
use crate::text::{chars_of, string_of};
use crate::timestamp::{rfc3339_form, rfc3339_utc_fields, timestamp_of_fields, Timestamp};

verus! {

/// The ways an operation on the journal can fail.
#[derive(Clone, Copy, Debug, PartialEq, Eq, Structural)]
pub enum JournalError {
    /// The user's home directory cannot be determined.
    HomeDirectoryUnavailable,
    /// The journal file cannot be opened or created for appending.
    FileOpenError,
    /// An entry cannot be written in the journal's line format.
    SerializationError,
    /// The journal file does not exist.
    FileNotFound,
    /// A line of the journal file cannot be read as text.
    LineReadError,
    /// A line of the journal file is not a stored entry.
    DeserializationError,
    /// The command line asks for neither operation.
    InvalidArguments,
}

/// One entry of the journal: when it was written, and its text.
#[derive(Debug)]
pub struct JournalEntry {
    pub timestamp: Timestamp,
    pub entry: String,
}

/// The JSON string literal of a text, quotes included, as serde_json writes it.
pub uninterp spec fn json_quoted(s: Seq<char>) -> Option<Seq<char>>;

/// The members of the JSON object that `s` holds, in the order of their
/// keys, where `s` holds one whose values are all strings.
pub uninterp spec fn json_string_object(s: Seq<char>) -> Option<Seq<(Seq<char>, Seq<char>)>>;

/// The views of the keys and values of `v`.
pub open spec fn members_view(v: Seq<(String, String)>) -> Seq<(Seq<char>, Seq<char>)> {
    v.map_values(|p: (String, String)| (p.0@, p.1@))
}

/// Relies on `serde_json::to_string` on a `str`: the text as a JSON string
/// literal.
#[verifier::external_body]
fn json_quote(s: &str) -> (r: Option<String>)
    ensures
        match r {
            Some(q) => json_quoted(s@) == Some(q@),
            None => json_quoted(s@) is None,
        },
{
    serde_json::to_string(s).ok()
}

/// Relies on `serde_json::from_str` into a `BTreeMap<String, String>`: the
/// members of the JSON object in `line`, where it is one whose values are
/// all strings.
#[verifier::external_body]
fn json_string_members(line: &str) -> (r: Option<Vec<(String, String)>>)
    ensures
        match r {
            Some(v) => json_string_object(line@) == Some(members_view(v@)),
            None => json_string_object(line@) is None,
        },
{
    serde_json::from_str::<std::collections::BTreeMap<String, String>>(line).ok().map(
        |m| m.into_iter().collect(),
    )
}

/// `{"timestamp":"`
pub open spec fn line_head() -> Seq<char> {
    seq!['{', '"', 't', 'i', 'm', 'e', 's', 't', 'a', 'm', 'p', '"', ':', '"']
}

/// `","entry":`
pub open spec fn line_middle() -> Seq<char> {
    seq!['"', ',', '"', 'e', 'n', 't', 'r', 'y', '"', ':']
}

/// `timestamp`
pub open spec fn timestamp_key() -> Seq<char> {
    seq!['t', 'i', 'm', 'e', 's', 't', 'a', 'm', 'p']
}

/// `entry`
pub open spec fn entry_key() -> Seq<char> {
    seq!['e', 'n', 't', 'r', 'y']
}

/// The stored line of an entry written at `t` whose text has the JSON
/// string literal `quoted`.
pub open spec fn line_form(t: Timestamp, quoted: Seq<char>) -> Seq<char> {
    line_head() + rfc3339_form(t) + line_middle() + quoted + seq!['}']
}

/// The value of the first member of `ms` with key `key`.
pub open spec fn member(ms: Seq<(Seq<char>, Seq<char>)>, key: Seq<char>) -> Option<Seq<char>>
    decreases ms.len(),
{
    if ms.len() == 0 {
        None
    } else if ms[0].0 == key {
        Some(ms[0].1)
    } else {
        member(ms.drop_first(), key)
    }
}

/// The timestamp and text of the entry that the members `ms` of a JSON
/// object hold, where they hold one.
pub open spec fn entry_of_members(ms: Seq<(Seq<char>, Seq<char>)>) -> Option<(Timestamp, Seq<char>)> {
    match (member(ms, timestamp_key()), member(ms, entry_key())) {
        (Some(ts), Some(text)) => match rfc3339_utc_fields(ts) {
            Some(f) => match timestamp_of_fields(f) {
                Some(t) => Some((t, text)),
                None => None,
            },
            None => None,
        },
        _ => None,
    }
}

/// The timestamp and text that a stored line holds, where it holds an entry.
pub open spec fn parse_line(s: Seq<char>) -> Option<(Timestamp, Seq<char>)> {
    match json_string_object(s) {
        Some(ms) => entry_of_members(ms),
        None => None,
    }
}

/// Appends the characters of `lit` to `out`.
fn push_all(out: &mut Vec<char>, lit: &Vec<char>)
    ensures
        final(out)@ == old(out)@ + lit@,
{
    let mut i: usize = 0;
    while i < lit.len()
        invariant
            i <= lit.len(),
            out@ == old(out)@ + lit@.take(i as int),
        decreases lit.len() - i,
    {
        out.push(lit[i]);
        i = i + 1;
        assert(out@ =~= old(out)@ + lit@.take(i as int));
    }
    assert(lit@.take(lit.len() as int) =~= lit@);
}

/// The value of the first member of `ms` whose key is `key`.
fn find_member(ms: &Vec<(String, String)>, key: &String) -> (r: Option<String>)
    ensures
        match r {
            Some(v) => member(members_view(ms@), key@) == Some(v@),
            None => member(members_view(ms@), key@) is None,
        },
{
    let ghost all = members_view(ms@);
    let mut i: usize = 0;
    assert(all.skip(0) =~= all);
    while i < ms.len()
        invariant
            i <= ms.len(),
            all == members_view(ms@),
            member(all, key@) == member(all.skip(i as int), key@),
        decreases ms.len() - i,
    {
        let ghost rest = all.skip(i as int);
        assert(rest[0] == (ms@[i as int].0@, ms@[i as int].1@));
        if ms[i].0 == *key {
            return Some(ms[i].1.clone());
        }
        assert(rest.drop_first() =~= all.skip(i + 1));
        i = i + 1;
    }
    assert(all.skip(ms.len() as int) =~= Seq::<(Seq<char>, Seq<char>)>::empty());
    None
}

impl JournalEntry {
    /// An entry with the given time and text.
    pub fn new(timestamp: Timestamp, entry: String) -> (r: JournalEntry)
        ensures
            r.timestamp == timestamp,
            r.entry@ == entry@,
    {
        JournalEntry { timestamp, entry }
    }

    /// An entry with the text `text`, written now. Fails with
    /// `SerializationError` where no current time can be stored.
    pub fn new_now(text: &str) -> (r: Result<JournalEntry, JournalError>)
        ensures
            match r {
                Ok(e) => e.timestamp.wf() && e.entry@ == text@,
                Err(err) => err == JournalError::SerializationError,
            },
    {
        match Timestamp::now() {
            Some(t) => Ok(JournalEntry { timestamp: t, entry: text.to_owned() }),
            None => Err(JournalError::SerializationError),
        }
    }

    /// The line that stores an entry written at `t` whose text has the JSON
    /// string literal `quoted`, without the line break.
    pub fn line_with_quoted(t: &Timestamp, quoted: &str) -> (r: String)
        ensures
            r@ == line_form(*t, quoted@),
    {
        let mut out = vec!['{', '"', 't', 'i', 'm', 'e', 's', 't', 'a', 'm', 'p', '"', ':', '"'];
        assert(out@ =~= line_head());
        let ts = t.rfc3339_chars();
        push_all(&mut out, &ts);
        let mid = vec!['"', ',', '"', 'e', 'n', 't', 'r', 'y', '"', ':'];
        assert(mid@ =~= line_middle());
        push_all(&mut out, &mid);
        let q = chars_of(quoted);
        push_all(&mut out, &q);
        out.push('}');
        assert(out@ =~= line_form(*t, quoted@));
        string_of(&out)
    }

    /// The line that stores this entry in the journal file, without the line
    /// break. Fails with `SerializationError` exactly where serde_json
    /// writes no string literal for the text.
    pub fn to_json_line(&self) -> (r: Result<String, JournalError>)
        ensures
            match r {
                Ok(line) => json_quoted(self.entry@) matches Some(q) && line@ == line_form(
                    self.timestamp,
                    q,
                ),
                Err(err) => err == JournalError::SerializationError && json_quoted(
                    self.entry@,
                ) is None,
            },
    {
        match json_quote(self.entry.as_str()) {
            Some(q) => Ok(JournalEntry::line_with_quoted(&self.timestamp, q.as_str())),
            None => Err(JournalError::SerializationError),
        }
    }

    /// The entry that the members of a JSON object hold. Fails with
    /// `DeserializationError` exactly where they hold none.
    pub fn from_members(ms: &Vec<(String, String)>) -> (r: Result<JournalEntry, JournalError>)
        ensures
            match r {
                Ok(e) => entry_of_members(members_view(ms@)) == Some((e.timestamp, e.entry@)),
                Err(err) => err == JournalError::DeserializationError && entry_of_members(
                    members_view(ms@),
                ) is None,
            },
    {
        let tkey = string_of(&vec!['t', 'i', 'm', 'e', 's', 't', 'a', 'm', 'p']);
        let ekey = string_of(&vec!['e', 'n', 't', 'r', 'y']);
        assert(tkey@ =~= timestamp_key());
        assert(ekey@ =~= entry_key());
        match (find_member(ms, &tkey), find_member(ms, &ekey)) {
            (Some(ts), Some(text)) => match Timestamp::from_rfc3339(ts.as_str()) {
                Some(t) => Ok(JournalEntry { timestamp: t, entry: text }),
                None => Err(JournalError::DeserializationError),
            },
            _ => Err(JournalError::DeserializationError),
        }
    }

    /// The entry that a line of the journal file stores. Fails with
    /// `DeserializationError` exactly where the line holds no entry.
    pub fn from_json_line(line: &str) -> (r: Result<JournalEntry, JournalError>)
        ensures
            match r {
                Ok(e) => parse_line(line@) == Some((e.timestamp, e.entry@)),
                Err(err) => err == JournalError::DeserializationError && parse_line(line@) is None,
            },
    {
        match json_string_members(line) {
            Some(ms) => JournalEntry::from_members(&ms),
            None => Err(JournalError::DeserializationError),
        }
    }
}

} // verus!
