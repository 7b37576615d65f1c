//! The journal's operations on plain values: the command line, the file's
//! location, reading stored lines and showing the latest entries.
use vstd::prelude::*;
use crate::digits::{all_digits, digits_value, is_digit};
use crate::entry::{json_quoted, line_form, parse_line, JournalEntry, JournalError};
use crate::text::{chars_of, string_of};
use crate::timestamp::{display_form, Timestamp};

verus! {

/// What one run of the journal is asked to do.
#[derive(Debug, PartialEq, Eq)]
pub enum Command {
    /// Append an entry with this text.
    Append(String),
    /// Show the most recent entries, at most this many.
    ShowLast(usize),
}

/// The words of `ws`, separated by single spaces.
pub open spec fn joined(ws: Seq<String>) -> Seq<char>
    decreases ws.len(),
{
    if ws.len() == 0 {
        Seq::empty()
    } else if ws.len() == 1 {
        ws[0]@
    } else {
        joined(ws.drop_last()) + seq![' '] + ws.last()@
    }
}

/// The count that `s` writes: decimal digits, after an optional `+`, whose
/// value fits in a `usize`.
pub open spec fn count_value(s: Seq<char>) -> Option<usize> {
    let d = if s.len() > 0 && s[0] == '+' {
        s.drop_first()
    } else {
        s
    };
    if d.len() > 0 && all_digits(d) && digits_value(d) <= usize::MAX {
        Some(digits_value(d) as usize)
    } else {
        None
    }
}

/// `-n`
pub open spec fn count_flag() -> Seq<char> {
    seq!['-', 'n']
}

/// Extending a numeral on the right does not lower its value.
proof fn lemma_digits_value_grows(s: Seq<char>, k: int)
    requires
        0 <= k <= s.len(),
        all_digits(s),
    ensures
        digits_value(s.take(k)) <= digits_value(s),
    decreases s.len() - k,
{
    if k < s.len() {
        lemma_digits_value_grows(s, k + 1);
        assert(s.take(k + 1).drop_last() =~= s.take(k));
        assert(is_digit(s[k]));
    } else {
        assert(s.take(k) =~= s);
    }
}

/// The count that `s` writes, where it writes one.
pub fn parse_count(s: &str) -> (r: Option<usize>)
    ensures
        r == count_value(s@),
{
    let cs = chars_of(s);
    let start: usize = if cs.len() > 0 && cs[0] == '+' {
        1
    } else {
        0
    };
    let ghost d = cs@.skip(start as int);
    assert(d == if s@.len() > 0 && s@[0] == '+' {
        s@.drop_first()
    } else {
        s@
    });
    if cs.len() == start {
        return None;
    }
    let mut v: usize = 0;
    let mut i: usize = start;
    while i < cs.len()
        invariant
            start <= i <= cs.len(),
            d == cs@.skip(start as int),
            cs@ == s@,
            d == if s@.len() > 0 && s@[0] == '+' {
                s@.drop_first()
            } else {
                s@
            },
            all_digits(d.take(i - start)),
            v == digits_value(d.take(i - start)),
        decreases cs.len() - i,
    {
        let c = cs[i];
        assert(d[i - start] == c);
        if !('0' <= c && c <= '9') {
            return None;
        }
        let digit = (c as u32 - 48) as usize;
        assert(d.take(i - start + 1).drop_last() =~= d.take(i - start));
        assert(d.take(i - start + 1).last() == c);
        assert(digits_value(d.take(i - start + 1)) == v * 10 + digit);
        if v > (usize::MAX - digit) / 10 {
            proof {
                if all_digits(d) {
                    lemma_digits_value_grows(d, i - start + 1);
                    assert(digits_value(d) >= v * 10 + digit);
                    assert(v * 10 + digit > usize::MAX) by (nonlinear_arith)
                        requires
                            v > (usize::MAX - digit) / 10,
                            digit <= 9,
                    ;
                }
            }
            return None;
        }
        v = v * 10 + digit;
        i = i + 1;
    }
    assert(d.take(cs.len() - start) =~= d);
    Some(v)
}

/// The words `args[from..]`, separated by single spaces.
pub fn join_words(args: &Vec<String>, from: usize) -> (r: String)
    requires
        from <= args.len(),
    ensures
        r@ == joined(args@.skip(from as int)),
{
    let mut out: Vec<char> = Vec::new();
    let mut i: usize = from;
    while i < args.len()
        invariant
            from <= i <= args.len(),
            out@ == joined(args@.subrange(from as int, i as int)),
        decreases args.len() - i,
    {
        let w = chars_of(args[i].as_str());
        let ghost before = args@.subrange(from as int, i as int);
        if i > from {
            out.push(' ');
        }
        let mut k: usize = 0;
        let ghost start = out@;
        while k < w.len()
            invariant
                k <= w.len(),
                out@ == start + w@.take(k as int),
            decreases w.len() - k,
        {
            out.push(w[k]);
            k = k + 1;
            assert(out@ =~= start + w@.take(k as int));
        }
        assert(w@.take(w.len() as int) =~= w@);
        let ghost after = args@.subrange(from as int, i + 1);
        assert(after.drop_last() =~= before);
        if i == from {
            assert(joined(before) =~= Seq::<char>::empty());
        }
        i = i + 1;
        assert(out@ =~= joined(args@.subrange(from as int, i as int)));
    }
    assert(args@.subrange(from as int, args.len() as int) =~= args@.skip(from as int));
    string_of(&out)
}

/// What the command line `args` asks for; `args[0]` is the program's name.
/// `-n <count>` asks for the latest entries; any other words are the text of
/// a new entry. Fails with `InvalidArguments` where there is nothing after
/// the program's name, or `-n` comes without a count.
pub fn parse_args(args: &Vec<String>) -> (r: Result<Command, JournalError>)
    ensures
        args.len() < 2 ==> r == Err::<Command, JournalError>(JournalError::InvalidArguments),
        args.len() >= 2 && args[1]@ == count_flag() ==> r == if args.len() >= 3 && count_value(
            args[2]@,
        ) is Some {
            Ok::<Command, JournalError>(Command::ShowLast(count_value(args[2]@)->0))
        } else {
            Err(JournalError::InvalidArguments)
        },
        args.len() >= 2 && args[1]@ != count_flag() ==> (r matches Ok(Command::Append(t)) && t@
            == joined(args@.skip(1))),
{
    if args.len() < 2 {
        return Err(JournalError::InvalidArguments);
    }
    let first = chars_of(args[1].as_str());
    if first.len() == 2 && first[0] == '-' && first[1] == 'n' {
        assert(first@ =~= count_flag());
        if args.len() < 3 {
            return Err(JournalError::InvalidArguments);
        }
        match parse_count(args[2].as_str()) {
            Some(n) => Ok(Command::ShowLast(n)),
            None => Err(JournalError::InvalidArguments),
        }
    } else {
        assert(args[1]@ != count_flag()) by {
            if args[1]@ == count_flag() {
                assert(first@.len() == 2);
            }
        }
        Ok(Command::Append(join_words(args, 1)))
    }
}

/// `/journal.json`
pub open spec fn journal_file_suffix() -> Seq<char> {
    seq!['/', 'j', 'o', 'u', 'r', 'n', 'a', 'l', '.', 'j', 's', 'o', 'n']
}

/// The journal file inside the home directory `home`.
pub fn journal_path_in(home: &str) -> (r: String)
    ensures
        r@ == home@ + journal_file_suffix(),
{
    let mut out = chars_of(home);
    let suffix = vec!['/', 'j', 'o', 'u', 'r', 'n', 'a', 'l', '.', 'j', 's', 'o', 'n'];
    let mut i: usize = 0;
    while i < suffix.len()
        invariant
            i <= suffix.len(),
            suffix@ == journal_file_suffix(),
            out@ == home@ + suffix@.take(i as int),
        decreases suffix.len() - i,
    {
        out.push(suffix[i]);
        i = i + 1;
        assert(out@ =~= home@ + suffix@.take(i as int));
    }
    assert(suffix@.take(suffix.len() as int) =~= suffix@);
    string_of(&out)
}

/// Relies on `dirs::home_dir`: the current user's home directory, where the
/// platform gives one; `None` also where its path is not valid UTF-8.
#[verifier::external_body]
fn home_directory() -> (r: Option<String>) {
    dirs::home_dir().and_then(|p| p.to_str().map(|s| s.to_owned()))
}

/// The journal file inside the home directory `home`, where one was found.
/// Fails with `HomeDirectoryUnavailable` exactly where none was.
pub fn journal_path_from_home(home: Option<String>) -> (r: Result<String, JournalError>)
    ensures
        match home {
            Some(h) => r matches Ok(p) && p@ == h@ + journal_file_suffix(),
            None => r == Err::<String, JournalError>(JournalError::HomeDirectoryUnavailable),
        },
{
    match home {
        Some(h) => Ok(journal_path_in(h.as_str())),
        None => Err(JournalError::HomeDirectoryUnavailable),
    }
}

/// The journal file inside the current user's home directory. Fails with
/// `HomeDirectoryUnavailable` where that directory cannot be determined.
pub fn get_journal_path() -> (r: Result<String, JournalError>)
    ensures
        match r {
            Ok(p) => exists|home: Seq<char>| p@ == home + journal_file_suffix(),
            Err(e) => e == JournalError::HomeDirectoryUnavailable,
        },
{
    journal_path_from_home(home_directory())
}

/// `<YYYY-MM-DD HH:MM:SS> - <text>`: how an entry is shown.
pub open spec fn shown_form(t: Timestamp, text: Seq<char>) -> Seq<char> {
    display_form(t) + seq![' ', '-', ' '] + text
}

impl JournalEntry {
    /// The entry as shown to the user.
    pub fn shown(&self) -> (r: String)
        ensures
            r@ == shown_form(self.timestamp, self.entry@),
    {
        let mut out = chars_of(self.timestamp.display().as_str());
        out.push(' ');
        out.push('-');
        out.push(' ');
        let text = chars_of(self.entry.as_str());
        let ghost start = out@;
        let mut k: usize = 0;
        while k < text.len()
            invariant
                k <= text.len(),
                out@ == start + text@.take(k as int),
            decreases text.len() - k,
        {
            out.push(text[k]);
            k = k + 1;
            assert(out@ =~= start + text@.take(k as int));
        }
        assert(text@.take(text.len() as int) =~= text@);
        assert(out@ =~= shown_form(self.timestamp, self.entry@));
        string_of(&out)
    }
}

/// The entries that the lines of a journal file store, in order. Fails with
/// `DeserializationError` exactly where some line holds no entry.
pub fn decode_lines(lines: &Vec<String>) -> (r: Result<Vec<JournalEntry>, JournalError>)
    ensures
        match r {
            Ok(v) => v.len() == lines.len() && forall|i: int|
                0 <= i < lines.len() ==> parse_line(#[trigger] lines[i]@) == Some(
                    (v[i].timestamp, v[i].entry@),
                ),
            Err(e) => e == JournalError::DeserializationError && exists|i: int|
                0 <= i < lines.len() && parse_line(#[trigger] lines[i]@) is None,
        },
{
    let mut out: Vec<JournalEntry> = Vec::new();
    let mut i: usize = 0;
    while i < lines.len()
        invariant
            i <= lines.len(),
            out.len() == i,
            forall|k: int|
                0 <= k < i ==> parse_line(#[trigger] lines[k]@) == Some(
                    (out[k].timestamp, out[k].entry@),
                ),
        decreases lines.len() - i,
    {
        match JournalEntry::from_json_line(lines[i].as_str()) {
            Ok(e) => {
                out.push(e);
            },
            Err(e) => {
                assert(parse_line(lines[i as int]@) is None);
                return Err(e);
            },
        }
        i = i + 1;
    }
    Ok(out)
}

/// How many of `total` entries are shown when at most `n` are asked for.
pub open spec fn shown_count(total: nat, n: nat) -> nat {
    if n < total {
        n
    } else {
        total
    }
}

/// The most recent entries, at most `n` of them, as shown to the user,
/// oldest first.
pub fn show_last(entries: &Vec<JournalEntry>, n: usize) -> (r: Vec<String>)
    ensures
        r.len() == shown_count(entries.len() as nat, n as nat),
        forall|i: int|
            0 <= i < r.len() ==> (#[trigger] r[i])@ == shown_form(
                entries[entries.len() - r.len() + i].timestamp,
                entries[entries.len() - r.len() + i].entry@,
            ),
{
    let total = entries.len();
    let count = if n < total {
        n
    } else {
        total
    };
    let first = total - count;
    let mut out: Vec<String> = Vec::new();
    let mut i: usize = first;
    while i < total
        invariant
            first <= i <= total,
            total == entries.len(),
            first == total - count,
            out.len() == i - first,
            forall|k: int|
                0 <= k < out.len() ==> (#[trigger] out[k])@ == shown_form(
                    entries[first + k].timestamp,
                    entries[first + k].entry@,
                ),
        decreases total - i,
    {
        out.push(entries[i].shown());
        i = i + 1;
    }
    out
}

/// `s` has the shape `YYYY-MM-DD HH:MM:SS`.
pub open spec fn display_shape(s: Seq<char>) -> bool {
    &&& s.len() == 19
    &&& forall|i: int|
        0 <= i < 19 && i != 4 && i != 7 && i != 10 && i != 13 && i != 16 ==> is_digit(
            #[trigger] s[i],
        )
    &&& s[4] == '-' && s[7] == '-' && s[10] == ' ' && s[13] == ':' && s[16] == ':'
}

proof fn lemma_digits_at(d: Seq<char>, k: int, n: nat, w: nat)
    requires
        0 <= k,
        k + w <= d.len(),
        d.subrange(k, k + w) == crate::digits::padded(n, w),
        n < crate::digits::pow10(w),
    ensures
        forall|i: int| k <= i < k + w ==> is_digit(#[trigger] d[i]),
{
    crate::digits::lemma_padded(n, w);
    assert forall|i: int| k <= i < k + w implies is_digit(#[trigger] d[i]) by {
        assert(d.subrange(k, k + w)[i - k] == d[i]);
    }
}

/// The shown form of a well-formed timestamp has the shape
/// `YYYY-MM-DD HH:MM:SS`.
proof fn lemma_display_shape(t: Timestamp)
    requires
        t.wf(),
    ensures
        display_shape(display_form(t)),
{
    reveal_with_fuel(crate::digits::pow10, 5);
    crate::digits::lemma_padded(t.year as nat, 4);
    crate::digits::lemma_padded(t.month as nat, 2);
    crate::digits::lemma_padded(t.day as nat, 2);
    crate::digits::lemma_padded(t.hour as nat, 2);
    crate::digits::lemma_padded(t.minute as nat, 2);
    crate::digits::lemma_padded(t.second as nat, 2);
    let d = display_form(t);
    assert(d.subrange(0, 4) =~= crate::digits::padded(t.year as nat, 4));
    assert(d.subrange(5, 7) =~= crate::digits::padded(t.month as nat, 2));
    assert(d.subrange(8, 10) =~= crate::digits::padded(t.day as nat, 2));
    assert(d.subrange(11, 13) =~= crate::digits::padded(t.hour as nat, 2));
    assert(d.subrange(14, 16) =~= crate::digits::padded(t.minute as nat, 2));
    assert(d.subrange(17, 19) =~= crate::digits::padded(t.second as nat, 2));
    lemma_digits_at(d, 0, t.year as nat, 4);
    lemma_digits_at(d, 5, t.month as nat, 2);
    lemma_digits_at(d, 8, t.day as nat, 2);
    lemma_digits_at(d, 11, t.hour as nat, 2);
    lemma_digits_at(d, 14, t.minute as nat, 2);
    lemma_digits_at(d, 17, t.second as nat, 2);
}

/// An entry with text `text` written at a well-formed time `t` is shown as
/// one line that starts with the time in the shape `YYYY-MM-DD HH:MM:SS` and
/// ends with ` - ` and the text.
pub proof fn lemma_shown_shape(t: Timestamp, text: Seq<char>)
    requires
        t.wf(),
    ensures
        display_shape(shown_form(t, text).take(19)),
        shown_form(t, text).skip(19) == seq![' ', '-', ' '] + text,
{
    lemma_display_shape(t);
    let s = shown_form(t, text);
    assert(s.take(19) =~= display_form(t));
    assert(s.skip(19) =~= seq![' ', '-', ' '] + text);
}

/// The line to append to the journal file for a new entry with text `text`,
/// written now, without the line break. Fails with `SerializationError`
/// where no current time can be stored or serde_json writes no string
/// literal for the text.
pub fn new_entry_line(text: &str) -> (r: Result<String, JournalError>)
    ensures
        match r {
            Ok(line) => exists|t: Timestamp|
                t.wf() && (json_quoted(text@) matches Some(q) && line@ == line_form(t, q)),
            Err(e) => e == JournalError::SerializationError,
        },
{
    let e = JournalEntry::new_now(text)?;
    e.to_json_line()
}

/// The most recent entries stored in the lines of a journal file, at most
/// `n` of them, as shown to the user, oldest first. Fails with
/// `DeserializationError` exactly where some line holds no entry.
pub fn show_last_of_lines(lines: &Vec<String>, n: usize) -> (r: Result<Vec<String>, JournalError>)
    ensures
        match r {
            Ok(v) => v.len() == shown_count(lines.len() as nat, n as nat) && (forall|i: int|
                0 <= i < lines.len() ==> parse_line(#[trigger] lines[i]@) is Some) && forall|i: int|
                0 <= i < v.len() ==> (#[trigger] v[i])@ == ({
                    let e = parse_line(lines[lines.len() - v.len() + i]@)->0;
                    shown_form(e.0, e.1)
                }),
            Err(e) => e == JournalError::DeserializationError && exists|i: int|
                0 <= i < lines.len() && parse_line(#[trigger] lines[i]@) is None,
        },
{
    let entries = decode_lines(lines)?;
    let shown = show_last(&entries, n);
    assert forall|i: int| 0 <= i < shown.len() implies (#[trigger] shown[i])@ == ({
        let e = parse_line(lines[lines.len() - shown.len() + i]@)->0;
        shown_form(e.0, e.1)
    }) by {
        assert(parse_line(lines[lines.len() - shown.len() + i]@) == Some(
            (entries[lines.len() - shown.len() + i].timestamp, entries[lines.len() - shown.len() + i].entry@),
        ));
    }
    assert forall|i: int| 0 <= i < lines.len() implies parse_line(#[trigger] lines[i]@) is Some by {
        assert(parse_line(lines[i]@) == Some((entries[i].timestamp, entries[i].entry@)));
    }
    Ok(shown)
}

} // verus!
