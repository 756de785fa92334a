//! Directory listings: one entry per line, after an optional summary line.

use crate::error::{
    result_view, Cause, CauseView, Error, ErrorKind, ErrorView, RegexCaptureError,
    TargetStringError,
};
use crate::hdfs::path::{sanitize, sanitized};
use crate::hdfs::perm::{is_mode, mode_rights, Permission, Rights};
use crate::hdfs::time::{moment_of, Moment, Timestamp};
use crate::text::{
    after_spaces, after_token, all_digits, chars_of, digits_only, find_char, lemma_find_char,
    parse_u64, parse_u64_spec, position_of, same_chars, skip_spaces, skip_token, string_of,
};
use vstd::prelude::*;
use vstd::slice::slice_subrange;
use vstd::string::StringExecFns;

verus! {

/// The fields of a listing line, as the error for a line without them
/// shows them.
pub const LINE_FORMAT: &'static str =
    "<mode> <replication> <owner> <group> <size> <date> <time> <path>";

/// One line of a directory listing.
#[derive(Debug, PartialEq, Eq)]
pub struct Entry {
    is_directory: bool,
    permissions: Permission,
    replication: u32,
    owner: String,
    group: String,
    size_bytes: u64,
    modified_at: Timestamp,
    path: String,
}

/// An [`Entry`] with its strings as sequences of characters, its
/// permissions as sets of rights and its timestamp as a moment.
pub struct EntryView {
    pub is_directory: bool,
    pub permissions: Rights,
    pub replication: u32,
    pub owner: Seq<char>,
    pub group: Seq<char>,
    pub size_bytes: u64,
    pub modified_at: Moment,
    pub path: Seq<char>,
}

impl View for Entry {
    type V = EntryView;

    closed spec fn view(&self) -> EntryView {
        EntryView {
            is_directory: self.is_directory,
            permissions: self.permissions@,
            replication: self.replication,
            owner: self.owner@,
            group: self.group@,
            size_bytes: self.size_bytes,
            modified_at: self.modified_at@,
            path: self.path@,
        }
    }
}

/// The views of a sequence of entries.
pub open spec fn entry_views(entries: Seq<Entry>) -> Seq<EntryView> {
    entries.map_values(|e: Entry| e@)
}

/// The replication factor that `s` writes, and 0 where it writes none
/// that fits in 32 bits: a listing shows `-` for a directory.
pub open spec fn lenient_u32(s: Seq<char>) -> u32 {
    match parse_u64_spec(s) {
        Ok(n) => if n <= u32::MAX {
            n as u32
        } else {
            0
        },
        Err(_) => 0,
    }
}

/// The entry that the eight fields of a line give. The first character of
/// the mode tells a directory (`d`) from anything else, the rest is the
/// permission string. Checked in this order, and the first failure is the
/// result: the mode is not empty; the permission string follows its
/// grammar; date, a space and time are a timestamp; the size is a number.
/// The replication factor never fails the entry, and the path is sanitised.
pub open spec fn entry_of(
    mode: Seq<char>,
    replication: Seq<char>,
    owner: Seq<char>,
    group: Seq<char>,
    size: Seq<char>,
    date: Seq<char>,
    time: Seq<char>,
    path: Seq<char>,
) -> Result<EntryView, ErrorView> {
    let stamp = date + seq![' '] + time;
    if mode.len() == 0 {
        Err(ErrorView { kind: ErrorKind::DirFlagEmpty, cause: CauseView::Absent })
    } else if !is_mode(mode.skip(1)) {
        Err(
            ErrorView {
                kind: ErrorKind::RegexCapPerm,
                cause: CauseView::Perm { perm: mode.skip(1) },
            },
        )
    } else if moment_of(stamp) is Err {
        Err(
            ErrorView {
                kind: ErrorKind::NaiveDateTimeParse,
                cause: CauseView::TargetString {
                    target: stamp,
                    fault: moment_of(stamp)->Err_0,
                },
            },
        )
    } else if parse_u64_spec(size) is Err {
        Err(
            ErrorView {
                kind: ErrorKind::RegexCapFileSizeParse,
                cause: CauseView::TargetString { target: size, fault: parse_u64_spec(size)->Err_0 },
            },
        )
    } else {
        Ok(
            EntryView {
                is_directory: mode[0] == 'd',
                permissions: mode_rights(mode.skip(1)),
                replication: lenient_u32(replication),
                owner,
                group,
                size_bytes: parse_u64_spec(size)->Ok_0,
                modified_at: moment_of(stamp)->Ok_0,
                path: sanitized(path),
            },
        )
    }
}

/// Where field `k` of a line starts, counting from 0: fields are runs of
/// characters other than whitespace, parted by whitespace. Where the line
/// has no such field, the result is the length of the line.
pub open spec fn field_start(line: Seq<char>, k: nat) -> int
    decreases k,
{
    if k == 0 {
        skip_spaces(line, 0)
    } else {
        skip_spaces(line, skip_token(line, field_start(line, (k - 1) as nat)))
    }
}

/// Field `k` of a line.
pub open spec fn field(line: Seq<char>, k: nat) -> Seq<char> {
    line.subrange(field_start(line, k), skip_token(line, field_start(line, k)))
}

/// What a line of a listing gives: nothing where it is empty or all
/// whitespace; an error where it has fewer than eight fields; else the
/// entry of its first seven fields and of the rest of the line, which is
/// the path with whatever whitespace it holds.
pub open spec fn line_entry(line: Seq<char>) -> Option<Result<EntryView, ErrorView>> {
    if skip_spaces(line, 0) >= line.len() {
        None
    } else if field_start(line, 7) >= line.len() {
        Some(
            Err(
                ErrorView {
                    kind: ErrorKind::HdfsDfsLsLine,
                    cause: CauseView::RegexCapture { pattern: LINE_FORMAT@, target: line },
                },
            ),
        )
    } else {
        Some(
            entry_of(
                field(line, 0),
                field(line, 1),
                field(line, 2),
                field(line, 3),
                field(line, 4),
                field(line, 5),
                field(line, 6),
                line.skip(field_start(line, 7)),
            ),
        )
    }
}

/// The entries of the lines of `text` from index `from` on, in order, or
/// the error of the first line that has one. A line ends before a line feed
/// or at the end of the text.
pub open spec fn entries_from(text: Seq<char>, from: int) -> Result<Seq<EntryView>, ErrorView>
    decreases text.len() + 1 - from,
{
    if 0 <= from < text.len() {
        let end = find_char(text, '\n', from);
        proof {
            lemma_find_char(text, '\n', from);
        }
        match line_entry(text.subrange(from, end)) {
            None => entries_from(text, end + 1),
            Some(Err(e)) => Err(e),
            Some(Ok(entry)) => match entries_from(text, end + 1) {
                Ok(rest) => Ok(seq![entry] + rest),
                Err(e) => Err(e),
            },
        }
    } else {
        Ok(Seq::empty())
    }
}

/// What a summary line starts with.
pub const SUMMARY_HEAD: &'static str = "Found ";

/// What a summary line ends with.
pub const SUMMARY_TAIL: &'static str = " items";

/// The summary line of a listing: `Found `, one or more decimal digits,
/// ` items`, and nothing else.
pub open spec fn is_summary(line: Seq<char>) -> bool {
    let head = SUMMARY_HEAD@.len();
    let tail = SUMMARY_TAIL@.len();
    &&& line.len() > head + tail
    &&& line.subrange(0, head as int) == SUMMARY_HEAD@
    &&& all_digits(line.subrange(head as int, line.len() - tail))
    &&& line.subrange(line.len() - tail, line.len() as int) == SUMMARY_TAIL@
}

/// Where the entries of a listing start: behind its first line where that
/// is a summary line, else at its start.
pub open spec fn entries_start(text: Seq<char>) -> int {
    let end = find_char(text, '\n', 0);
    if is_summary(text.subrange(0, end)) {
        end + 1
    } else {
        0
    }
}

/// The entries of a listing, in the order of its lines, or the error of
/// the first line that has one: a listing is read whole or not at all.
pub open spec fn listing_of(text: Seq<char>) -> Result<Seq<EntryView>, ErrorView> {
    entries_from(text, entries_start(text))
}

/// The result of `rest` with `done` before its entries.
pub open spec fn after(done: Seq<EntryView>, rest: Result<Seq<EntryView>, ErrorView>) -> Result<
    Seq<EntryView>,
    ErrorView,
> {
    match rest {
        Ok(entries) => Ok(done + entries),
        Err(e) => Err(e),
    }
}

/// The replication factor that `s` writes, or 0.
fn lenient_replication(s: &str) -> (r: u32)
    ensures
        r == lenient_u32(s@),
{
    let chars = chars_of(s);
    match parse_u64(chars.as_slice()) {
        Ok(n) => if n <= 0xffff_ffff {
            n as u32
        } else {
            0
        },
        Err(_) => 0,
    }
}

impl Entry {
    /// The entry that the eight fields of a listing line give.
    pub fn from_fields(
        mode: &str,
        replication: &str,
        owner: &str,
        group: &str,
        size: &str,
        date: &str,
        time: &str,
        path: &str,
    ) -> (r: Result<Entry, Error>)
        ensures
            result_view(r) == entry_of(
                mode@,
                replication@,
                owner@,
                group@,
                size@,
                date@,
                time@,
                path@,
            ),
    {
        let mode_len = mode.unicode_len();
        if mode_len == 0 {
            return Err(Error::from_kind(ErrorKind::DirFlagEmpty));
        }
        let is_directory = mode.get_char(0) == 'd';
        let perm = mode.substring_char(1, mode_len);
        let permissions = match Permission::parse(perm) {
            Ok(p) => p,
            Err(e) => {
                return Err(Error::new(ErrorKind::RegexCapPerm, Cause::Perm(e)));
            },
        };
        let mut stamp = date.to_owned();
        stamp.append(" ");
        stamp.append(time);
        proof {
            reveal_strlit(" ");
            assert(stamp@ =~= date@ + seq![' '] + time@);
        }
        let modified_at = match Timestamp::parse(stamp.as_str()) {
            Ok(t) => t,
            Err(fault) => {
                return Err(
                    Error::new(
                        ErrorKind::NaiveDateTimeParse,
                        Cause::TargetString(TargetStringError::new(stamp, fault)),
                    ),
                );
            },
        };
        let size_chars = chars_of(size);
        let size_bytes = match parse_u64(size_chars.as_slice()) {
            Ok(n) => n,
            Err(fault) => {
                return Err(
                    Error::new(
                        ErrorKind::RegexCapFileSizeParse,
                        Cause::TargetString(TargetStringError::new(size.to_owned(), fault)),
                    ),
                );
            },
        };
        Ok(
            Entry {
                is_directory,
                permissions,
                replication: lenient_replication(replication),
                owner: owner.to_owned(),
                group: group.to_owned(),
                size_bytes,
                modified_at,
                path: sanitize(path),
            },
        )
    }

    /// Whether the entry is a directory.
    pub fn is_directory(&self) -> (r: bool)
        ensures
            r == self@.is_directory,
    {
        self.is_directory
    }

    /// What owner, group and others may do with the entry.
    pub fn permissions(&self) -> (r: Permission)
        ensures
            r@ == self@.permissions,
    {
        self.permissions
    }

    /// The replication factor, 0 where the listing shows none.
    pub fn replication(&self) -> (r: u32)
        ensures
            r == self@.replication,
    {
        self.replication
    }

    /// The owner of the entry.
    pub fn owner(&self) -> (r: &str)
        ensures
            r@ == self@.owner,
    {
        self.owner.as_str()
    }

    /// The group of the entry.
    pub fn group(&self) -> (r: &str)
        ensures
            r@ == self@.group,
    {
        self.group.as_str()
    }

    /// The size of the entry in bytes.
    pub fn size_bytes(&self) -> (r: u64)
        ensures
            r == self@.size_bytes,
    {
        self.size_bytes
    }

    /// When the entry was last modified.
    pub fn modified_at(&self) -> (r: Timestamp)
        ensures
            r@ == self@.modified_at,
    {
        self.modified_at
    }

    /// The path of the entry from the root of its filesystem.
    pub fn path(&self) -> (r: &str)
        ensures
            r@ == self@.path,
    {
        self.path.as_str()
    }
}

/// What one line of a listing gives: see [`line_entry`].
pub fn parse_line(line: &[char]) -> (r: Option<Result<Entry, Error>>)
    ensures
        match r {
            None => line_entry(line@) is None,
            Some(entry) => line_entry(line@) == Some(result_view(entry)),
        },
{
    let n = line.len();
    let s0 = after_spaces(line, 0);
    if s0 >= n {
        return None;
    }
    let e0 = after_token(line, s0);
    let s1 = after_spaces(line, e0);
    let e1 = after_token(line, s1);
    let s2 = after_spaces(line, e1);
    let e2 = after_token(line, s2);
    let s3 = after_spaces(line, e2);
    let e3 = after_token(line, s3);
    let s4 = after_spaces(line, e3);
    let e4 = after_token(line, s4);
    let s5 = after_spaces(line, e4);
    let e5 = after_token(line, s5);
    let s6 = after_spaces(line, e5);
    let e6 = after_token(line, s6);
    let s7 = after_spaces(line, e6);
    proof {
        assert(field_start(line@, 7) == s7);
    }
    if s7 >= n {
        let target = string_of(line, 0, n);
        proof {
            assert(line@.subrange(0, n as int) =~= line@);
        }
        return Some(
            Err(
                Error::new(
                    ErrorKind::HdfsDfsLsLine,
                    Cause::RegexCapture(RegexCaptureError::new(LINE_FORMAT, target)),
                ),
            ),
        );
    }
    let mode = string_of(line, s0, e0);
    let replication = string_of(line, s1, e1);
    let owner = string_of(line, s2, e2);
    let group = string_of(line, s3, e3);
    let size = string_of(line, s4, e4);
    let date = string_of(line, s5, e5);
    let time = string_of(line, s6, e6);
    let path = string_of(line, s7, n);
    Some(
        Entry::from_fields(
            mode.as_str(),
            replication.as_str(),
            owner.as_str(),
            group.as_str(),
            size.as_str(),
            date.as_str(),
            time.as_str(),
            path.as_str(),
        ),
    )
}

/// Whether `line` is the summary line of a listing.
pub fn summary_line(line: &[char]) -> (r: bool)
    ensures
        r == is_summary(line@),
{
    let head = chars_of(SUMMARY_HEAD);
    let tail = chars_of(SUMMARY_TAIL);
    let n = line.len();
    if head.len() > n || tail.len() >= n - head.len() {
        return false;
    }
    same_chars(slice_subrange(line, 0, head.len()), head.as_slice()) && digits_only(
        line,
        head.len(),
        n - tail.len(),
    ) && same_chars(slice_subrange(line, n - tail.len(), n), tail.as_slice())
}

/// Reads a directory listing: the entries of its lines in order, or the
/// error of the first line that has one.
pub fn parse_ls(text: &str) -> (r: Result<Vec<Entry>, Error>)
    ensures
        match r {
            Ok(entries) => listing_of(text@) == Ok::<Seq<EntryView>, ErrorView>(
                entry_views(entries@),
            ),
            Err(e) => listing_of(text@) == Err::<Seq<EntryView>, ErrorView>(e@),
        },
{
    let chars = chars_of(text);
    let s = chars.as_slice();
    let n = s.len();
    let first_end = position_of(s, '\n', 0);
    let mut pos: usize = if summary_line(slice_subrange(s, 0, first_end)) {
        if first_end < n {
            first_end + 1
        } else {
            n
        }
    } else {
        0
    };
    let mut entries: Vec<Entry> = Vec::new();
    while pos < n
        invariant
            pos <= n == s@.len(),
            s@ == text@,
            listing_of(text@) == after(entry_views(entries@), entries_from(s@, pos as int)),
        decreases n - pos,
    {
        let end = position_of(s, '\n', pos);
        let ghost done = entry_views(entries@);
        let ghost next = entries_from(s@, end + 1);
        match parse_line(slice_subrange(s, pos, end)) {
            None => {},
            Some(Err(e)) => {
                return Err(e);
            },
            Some(Ok(entry)) => {
                entries.push(entry);
                proof {
                    assert(entry_views(entries@) =~= done + seq![entry@]);
                    match next {
                        Ok(rest) => {
                            assert((done + seq![entry@]) + rest =~= done + (seq![entry@] + rest));
                        },
                        Err(_) => {},
                    }
                }
            },
        }
        pos = if end < n {
            end + 1
        } else {
            n
        };
    }
    Ok(entries)
}

} // verus!
