//! The space-usage report: a header line and one data line.

use crate::error::{
    result_view, Cause, CauseView, Error, ErrorKind, ErrorView, RegexCaptureError,
    TargetStringError, ValueFault,
};
use crate::pattern::{captures, captures_of};
use crate::text::{chars_of, parse_u64, parse_u64_spec};
use vstd::prelude::*;

verus! {

/// The header of a usage report, up to the data line, which is group 1.
pub const CAP_LINE_RE: &'static str = r"^Filesystem\s+Size\s+Used\s+Available\s+Use%\s+(?P<v>.+)\s";

/// The data line of a usage report: the filesystem (group 1), its size,
/// the space used (group 2), the space available (group 3) and the share
/// used. The size and the share must be there and are not read.
pub const VALUES_RE: &'static str = r"^(?P<fs>\S+)\s+\d+\s+(?P<u>\d+)\s+(?P<a>\d+)\s+\d+%.*$";

/// How much of a filesystem is in use. The capacity is what is used plus
/// what is available, whatever total the report itself names.
#[derive(Debug, PartialEq, Eq)]
pub struct UsageRecord {
    filesystem_id: String,
    used_bytes: u64,
    capacity_bytes: u64,
}

/// A [`UsageRecord`] with its string as a sequence of characters.
pub struct UsageRecordView {
    pub filesystem_id: Seq<char>,
    pub used_bytes: u64,
    pub capacity_bytes: u64,
}

impl View for UsageRecord {
    type V = UsageRecordView;

    closed spec fn view(&self) -> UsageRecordView {
        UsageRecordView {
            filesystem_id: self.filesystem_id@,
            used_bytes: self.used_bytes,
            capacity_bytes: self.capacity_bytes,
        }
    }
}

impl UsageRecord {
    /// No more is used than there is.
    #[verifier::type_invariant]
    spec fn used_within_capacity(&self) -> bool {
        self.used_bytes <= self.capacity_bytes
    }

    /// The record of a filesystem with `used_bytes` in use and
    /// `available_bytes` free, or `None` where their sum does not fit in 64
    /// bits.
    pub fn new(filesystem_id: String, used_bytes: u64, available_bytes: u64) -> (r: Option<
        UsageRecord,
    >)
        ensures
            r is Some <==> used_bytes + available_bytes <= u64::MAX,
            r matches Some(record) ==> record@ == (UsageRecordView {
                filesystem_id: filesystem_id@,
                used_bytes,
                capacity_bytes: (used_bytes + available_bytes) as u64,
            }),
    {
        match used_bytes.checked_add(available_bytes) {
            Some(capacity_bytes) => Some(UsageRecord { filesystem_id, used_bytes, capacity_bytes }),
            None => None,
        }
    }

    /// The filesystem that the record is about.
    pub fn filesystem_id(&self) -> (r: &str)
        ensures
            r@ == self@.filesystem_id,
    {
        self.filesystem_id.as_str()
    }

    /// The bytes in use.
    pub fn used_bytes(&self) -> (r: u64)
        ensures
            r == self@.used_bytes,
            r <= self@.capacity_bytes,
    {
        proof {
            use_type_invariant(self);
        }
        self.used_bytes
    }

    /// The bytes in use and available together.
    pub fn capacity_bytes(&self) -> (r: u64)
        ensures
            r == self@.capacity_bytes,
            r >= self@.used_bytes,
    {
        proof {
            use_type_invariant(self);
        }
        self.capacity_bytes
    }

    /// The bytes still available.
    pub fn available_bytes(&self) -> (r: u64)
        ensures
            r == self@.capacity_bytes - self@.used_bytes,
    {
        proof {
            use_type_invariant(self);
        }
        self.capacity_bytes - self.used_bytes
    }
}

/// Group `i` of a match, `None` where the match has no such group or the
/// group took no part in it.
pub open spec fn group(groups: Seq<Option<Seq<char>>>, i: int) -> Option<Seq<char>> {
    if 0 <= i < groups.len() {
        groups[i]
    } else {
        None
    }
}

/// The data line of the report `text`, given what [`CAP_LINE_RE`] captured
/// in it.
pub open spec fn data_line(text: Seq<char>, header: Option<Seq<Option<Seq<char>>>>) -> Result<
    Seq<char>,
    ErrorView,
> {
    if header is Some && group(header.unwrap(), 1) is Some {
        Ok(group(header.unwrap(), 1).unwrap())
    } else {
        Err(
            ErrorView {
                kind: ErrorKind::RegexInitialHdfsDfCap,
                cause: CauseView::RegexCapture { pattern: CAP_LINE_RE@, target: text },
            },
        )
    }
}

/// The record that the data line `line` gives, given what [`VALUES_RE`]
/// captured in it. The used and the available space must each be an unsigned
/// 64-bit number, and so must their sum.
pub open spec fn record_of(line: Seq<char>, values: Option<Seq<Option<Seq<char>>>>) -> Result<
    UsageRecordView,
    ErrorView,
> {
    if values is Some && group(values.unwrap(), 1) is Some && group(values.unwrap(), 2) is Some
        && group(values.unwrap(), 3) is Some {
        let filesystem_id = group(values.unwrap(), 1).unwrap();
        let used = group(values.unwrap(), 2).unwrap();
        let available = group(values.unwrap(), 3).unwrap();
        match parse_u64_spec(used) {
            Err(fault) => Err(
                ErrorView {
                    kind: ErrorKind::ParseHdfsDfUsedValue,
                    cause: CauseView::TargetString { target: used, fault },
                },
            ),
            Ok(used_bytes) => match parse_u64_spec(available) {
                Err(fault) => Err(
                    ErrorView {
                        kind: ErrorKind::ParseHdfsDfSizeValue,
                        cause: CauseView::TargetString { target: available, fault },
                    },
                ),
                Ok(available_bytes) => if used_bytes + available_bytes > u64::MAX {
                    Err(
                        ErrorView {
                            kind: ErrorKind::ParseHdfsDfSizeValue,
                            cause: CauseView::TargetString {
                                target: available,
                                fault: ValueFault::Overflow,
                            },
                        },
                    )
                } else {
                    Ok(
                        UsageRecordView {
                            filesystem_id,
                            used_bytes,
                            capacity_bytes: (used_bytes + available_bytes) as u64,
                        },
                    )
                },
            },
        }
    } else {
        Err(
            ErrorView {
                kind: ErrorKind::RegexHdfsDfValuesCap,
                cause: CauseView::RegexCapture { pattern: VALUES_RE@, target: line },
            },
        )
    }
}

/// The record that the usage report `text` gives: [`CAP_LINE_RE`] finds the
/// data line, [`VALUES_RE`] its columns.
pub open spec fn usage_of(text: Seq<char>) -> Result<UsageRecordView, ErrorView> {
    match data_line(text, captures_of(CAP_LINE_RE@, text)) {
        Err(e) => Err(e),
        Ok(line) => record_of(line, captures_of(VALUES_RE@, line)),
    }
}

/// A copy of group `i`.
fn group_text(groups: &Vec<Option<String>>, i: usize) -> (r: Option<String>)
    ensures
        r.deep_view() == group(groups.deep_view(), i as int),
{
    if i < groups.len() {
        match &groups[i] {
            Some(text) => Some(text.clone()),
            None => None,
        }
    } else {
        None
    }
}

/// An error whose cause is that `target` does not match `pattern`.
fn capture_error(kind: ErrorKind, pattern: &str, target: &str) -> (r: Error)
    ensures
        r@ == (ErrorView {
            kind,
            cause: CauseView::RegexCapture { pattern: pattern@, target: target@ },
        }),
{
    Error::new(kind, Cause::RegexCapture(RegexCaptureError::new(pattern, target.to_owned())))
}

/// An error whose cause is that `target` is no number.
fn value_error(kind: ErrorKind, target: String, fault: ValueFault) -> (r: Error)
    ensures
        r@ == (ErrorView { kind, cause: CauseView::TargetString { target: target@, fault } }),
{
    Error::new(kind, Cause::TargetString(TargetStringError::new(target, fault)))
}

/// The data line of the report `df_str`, where `header` is what
/// [`CAP_LINE_RE`] captured in it.
pub fn data_line_of(df_str: &str, header: Option<Vec<Option<String>>>) -> (r: Result<String, Error>)
    ensures
        result_view(r) == data_line(df_str@, header.deep_view()),
{
    let line = match &header {
        Some(groups) => group_text(groups, 1),
        None => None,
    };
    match line {
        Some(line) => Ok(line),
        None => Err(capture_error(ErrorKind::RegexInitialHdfsDfCap, CAP_LINE_RE, df_str)),
    }
}

/// The record of the data line `line`, where `values` is what [`VALUES_RE`]
/// captured in it.
pub fn record_from_values(line: &str, values: Option<Vec<Option<String>>>) -> (r: Result<
    UsageRecord,
    Error,
>)
    ensures
        result_view(r) == record_of(line@, values.deep_view()),
{
    let groups = match values {
        Some(groups) => groups,
        None => {
            return Err(capture_error(ErrorKind::RegexHdfsDfValuesCap, VALUES_RE, line));
        },
    };
    let filesystem_id = group_text(&groups, 1);
    let used = group_text(&groups, 2);
    let available = group_text(&groups, 3);
    match (filesystem_id, used, available) {
        (Some(filesystem_id), Some(used), Some(available)) => {
            let used_chars = chars_of(used.as_str());
            let used_bytes = match parse_u64(used_chars.as_slice()) {
                Ok(n) => n,
                Err(fault) => {
                    return Err(value_error(ErrorKind::ParseHdfsDfUsedValue, used, fault));
                },
            };
            let available_chars = chars_of(available.as_str());
            let available_bytes = match parse_u64(available_chars.as_slice()) {
                Ok(n) => n,
                Err(fault) => {
                    return Err(value_error(ErrorKind::ParseHdfsDfSizeValue, available, fault));
                },
            };
            match UsageRecord::new(filesystem_id, used_bytes, available_bytes) {
                Some(record) => Ok(record),
                None => Err(
                    value_error(ErrorKind::ParseHdfsDfSizeValue, available, ValueFault::Overflow),
                ),
            }
        },
        _ => Err(capture_error(ErrorKind::RegexHdfsDfValuesCap, VALUES_RE, line)),
    }
}

/// Reads a usage report.
pub fn parse_df(df_str: &str) -> (r: Result<UsageRecord, Error>)
    ensures
        result_view(r) == usage_of(df_str@),
{
    let header = captures(CAP_LINE_RE, df_str);
    let line = data_line_of(df_str, header)?;
    let values = captures(VALUES_RE, line.as_str());
    record_from_values(line.as_str(), values)
}

} // verus!
