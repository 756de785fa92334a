//! The mirror walk: which remote files to copy, where to, and in what
//! order.
//!
//! The walk itself touches nothing. A [`Walker`] hands out one [`Action`]
//! at a time; whoever drives it carries the action out and reports what
//! came of it as an [`Event`], for which the walker hands out the next
//! action. The remote tree is walked depth first, in the order of its
//! listings; directories are always entered, files are copied where a
//! pattern matches their path and nothing stands at their destination yet.
//! The first failure ends the walk.

use crate::error::{
    Cause, CauseView, Error, ErrorKind, ErrorView, MsgError, PathError, RegexError,
};
use crate::hdfs::ls::{entry_views, listing_of, parse_ls, Entry, EntryView};
use crate::hdfs::path::{destination, local_destination, parent_dir, parent_of};
use crate::pattern::{check_pattern, finds, is_match, regex_compiles, regex_new_error};
use crate::util::process::{extract_output_stdout_str, stdout_text, Output, OutputView};
use vstd::prelude::*;

verus! {

/// The patterns that pick the files to copy. Every pattern of a filter is
/// a valid regular expression.
#[derive(Debug, PartialEq, Eq)]
pub struct Filter {
    patterns: Vec<String>,
}

impl View for Filter {
    type V = Seq<Seq<char>>;

    closed spec fn view(&self) -> Seq<Seq<char>> {
        self.patterns.deep_view()
    }
}

/// The index of the first pattern at or after `from` that is no valid
/// regular expression, or the number of patterns where all are.
pub open spec fn first_invalid(patterns: Seq<Seq<char>>, from: int) -> int
    decreases patterns.len() - from,
{
    if 0 <= from < patterns.len() && regex_compiles(patterns[from]) {
        first_invalid(patterns, from + 1)
    } else {
        from
    }
}

/// Whether one of the patterns matches somewhere in `path`. No pattern, no
/// match.
pub open spec fn selects(patterns: Seq<Seq<char>>, path: Seq<char>) -> bool {
    exists|i: int| 0 <= i < patterns.len() && #[trigger] finds(patterns[i], path)
}

/// The error of the first pattern that is no valid regular expression:
/// the pattern, and what the regex compiler said of it. `None` where all
/// patterns are valid.
pub open spec fn invalid_pattern(patterns: Seq<Seq<char>>) -> Option<ErrorView> {
    let at = first_invalid(patterns, 0);
    if 0 <= at < patterns.len() {
        Some(
            ErrorView {
                kind: ErrorKind::HdfsRegexMatch,
                cause: CauseView::Regex {
                    target: patterns[at],
                    inner: regex_new_error(patterns[at])->Some_0,
                },
            },
        )
    } else {
        None
    }
}

impl Filter {
    /// A filter of the given patterns, or the error of the first of them
    /// that is no valid regular expression.
    pub fn new(patterns: Vec<String>) -> (r: Result<Filter, Error>)
        ensures
            match r {
                Ok(filter) => invalid_pattern(patterns.deep_view()) is None && filter@
                    == patterns.deep_view(),
                Err(e) => invalid_pattern(patterns.deep_view()) == Some(e@),
            },
    {
        let mut i: usize = 0;
        while i < patterns.len()
            invariant
                i <= patterns.len(),
                first_invalid(patterns.deep_view(), 0) == first_invalid(
                    patterns.deep_view(),
                    i as int,
                ),
            decreases patterns.len() - i,
        {
            match check_pattern(patterns[i].as_str()) {
                Some(why) => {
                    return Err(
                        Error::new(
                            ErrorKind::HdfsRegexMatch,
                            Cause::Regex(RegexError::new(patterns[i].clone(), why)),
                        ),
                    );
                },
                None => {},
            }
            i += 1;
        }
        Ok(Filter { patterns })
    }

    /// Whether one of the patterns matches somewhere in `path`.
    pub fn selects(&self, path: &str) -> (r: bool)
        ensures
            r == selects(self@, path@),
    {
        let mut i: usize = 0;
        while i < self.patterns.len()
            invariant
                i <= self.patterns.len(),
                forall|j: int| 0 <= j < i ==> !#[trigger] finds(self@[j], path@),
            decreases self.patterns.len() - i,
        {
            match is_match(self.patterns[i].as_str(), path) {
                Some(true) => {
                    assert(finds(self@[i as int], path@));
                    return true;
                },
                _ => {},
            }
            i += 1;
        }
        false
    }

    /// The number of patterns.
    pub fn len(&self) -> (r: usize)
        ensures
            r == self@.len(),
    {
        self.patterns.len()
    }
}

/// What the driver of a walk is to do next.
#[derive(Debug, PartialEq, Eq)]
pub enum Action {
    /// List the remote directory `path` and report `Event::Listed`.
    List { path: String },
    /// Create the local directory `path` and all above it that are missing,
    /// and report `Event::DirsCreated`. A directory that exists is no
    /// failure.
    CreateDirs { path: String },
    /// Report as `Event::Exists` whether anything stands at the local path
    /// `path`.
    CheckExists { path: String },
    /// Copy the remote file `from` to the local path `to` and report
    /// `Event::Copied`.
    Copy { from: String, to: String },
    /// Nothing: the walk is complete.
    Finish,
    /// Nothing: the walk has failed.
    Abort,
}

/// An [`Action`] with its strings as sequences of characters.
pub enum ActionView {
    List { path: Seq<char> },
    CreateDirs { path: Seq<char> },
    CheckExists { path: Seq<char> },
    Copy { from: Seq<char>, to: Seq<char> },
    Finish,
    Abort,
}

impl View for Action {
    type V = ActionView;

    open spec fn view(&self) -> ActionView {
        match *self {
            Action::List { path } => ActionView::List { path: path@ },
            Action::CreateDirs { path } => ActionView::CreateDirs { path: path@ },
            Action::CheckExists { path } => ActionView::CheckExists { path: path@ },
            Action::Copy { from, to } => ActionView::Copy { from: from@, to: to@ },
            Action::Finish => ActionView::Finish,
            Action::Abort => ActionView::Abort,
        }
    }
}

/// What came of an action. Where a command could not be run at all, or the
/// local filesystem refused, the event carries the message of that failure.
#[derive(Debug, PartialEq, Eq)]
pub enum Event {
    /// The listing command ran and left this output, or could not be run.
    Listed(Result<Output, String>),
    /// The directories are there, or could not be created.
    DirsCreated(Result<(), String>),
    /// Whether something stands at the destination.
    Exists(bool),
    /// The copy command ran and left this output, or could not be run.
    Copied(Result<Output, String>),
}

/// An [`Event`] with its strings as sequences of characters and its byte
/// vectors as sequences.
pub enum EventView {
    Listed(Result<OutputView, Seq<char>>),
    DirsCreated(Result<(), Seq<char>>),
    Exists(bool),
    Copied(Result<OutputView, Seq<char>>),
}

impl View for Event {
    type V = EventView;

    open spec fn view(&self) -> EventView {
        match *self {
            Event::Listed(Ok(output)) => EventView::Listed(Ok(output@)),
            Event::Listed(Err(why)) => EventView::Listed(Err(why@)),
            Event::DirsCreated(Ok(done)) => EventView::DirsCreated(Ok(done)),
            Event::DirsCreated(Err(why)) => EventView::DirsCreated(Err(why@)),
            Event::Exists(there) => EventView::Exists(there),
            Event::Copied(Ok(output)) => EventView::Copied(Ok(output@)),
            Event::Copied(Err(why)) => EventView::Copied(Err(why@)),
        }
    }
}

/// What a walker waits for.
#[derive(Debug, PartialEq, Eq)]
pub enum Phase {
    /// The listing of the remote directory `path`.
    Listing { path: String },
    /// The directories above the destination of the remote file `src`.
    MakingDirs { src: String },
    /// Whether the destination of the remote file `src` exists.
    Probing { src: String },
    /// The copy of the remote file `src`.
    Copying { src: String },
    /// Nothing: every directory was listed and every file dealt with.
    Finished,
    /// Nothing: work on the remote path `path` failed with `error`.
    Failed { path: String, error: Error },
}

/// A [`Phase`] with its strings as sequences of characters.
pub enum PhaseView {
    Listing { path: Seq<char> },
    MakingDirs { src: Seq<char> },
    Probing { src: Seq<char> },
    Copying { src: Seq<char> },
    Finished,
    Failed { path: Seq<char>, error: ErrorView },
}

impl View for Phase {
    type V = PhaseView;

    open spec fn view(&self) -> PhaseView {
        match *self {
            Phase::Listing { path } => PhaseView::Listing { path: path@ },
            Phase::MakingDirs { src } => PhaseView::MakingDirs { src: src@ },
            Phase::Probing { src } => PhaseView::Probing { src: src@ },
            Phase::Copying { src } => PhaseView::Copying { src: src@ },
            Phase::Finished => PhaseView::Finished,
            Phase::Failed { path, error } => PhaseView::Failed { path: path@, error: error@ },
        }
    }
}

/// A walk in progress.
#[derive(Debug, PartialEq, Eq)]
pub struct Walker {
    local_root: String,
    filter: Filter,
    /// The entries yet to be dealt with; the last one comes next.
    pending: Vec<Entry>,
    phase: Phase,
}

/// The state of a walk: the local root, the patterns, the entries yet to
/// be dealt with, the next one first, and what the walk waits for.
pub struct WalkerView {
    pub local_root: Seq<char>,
    pub patterns: Seq<Seq<char>>,
    pub pending: Seq<EntryView>,
    pub phase: PhaseView,
}

impl View for Walker {
    type V = WalkerView;

    closed spec fn view(&self) -> WalkerView {
        WalkerView {
            local_root: self.local_root@,
            patterns: self.filter@,
            pending: entry_views(self.pending@).reverse(),
            phase: self.phase@,
        }
    }
}

impl WalkerView {
    /// The same walk in another phase.
    pub open spec fn in_phase(self, phase: PhaseView) -> WalkerView {
        WalkerView { phase, ..self }
    }

    /// The same walk with other entries to deal with.
    pub open spec fn with_pending(self, pending: Seq<EntryView>) -> WalkerView {
        WalkerView { pending, ..self }
    }

    /// Where the remote file `src` goes.
    pub open spec fn destination(self, src: Seq<char>) -> Seq<char> {
        destination(self.local_root, src)
    }

    /// The action that the walk waits on.
    pub open spec fn awaited(self) -> ActionView {
        match self.phase {
            PhaseView::Listing { path } => ActionView::List { path },
            PhaseView::MakingDirs { src } => ActionView::CreateDirs {
                path: parent_dir(self.destination(src)),
            },
            PhaseView::Probing { src } => ActionView::CheckExists { path: self.destination(src) },
            PhaseView::Copying { src } => ActionView::Copy {
                from: src,
                to: self.destination(src),
            },
            PhaseView::Finished => ActionView::Finish,
            PhaseView::Failed { .. } => ActionView::Abort,
        }
    }

    /// The walk in the given phase, and the action that it then waits on.
    pub open spec fn enter(self, phase: PhaseView) -> (WalkerView, ActionView) {
        (self.in_phase(phase), self.in_phase(phase).awaited())
    }

    /// The walk after work on the remote path `path` failed with `error`.
    pub open spec fn fail(self, path: Seq<char>, error: ErrorView) -> (WalkerView, ActionView) {
        self.enter(PhaseView::Failed { path, error })
    }

    /// The first steps towards copying the remote file `src`: the
    /// directories above its destination are made first, unless the
    /// destination has none above it.
    pub open spec fn begin_file(self, src: Seq<char>) -> (WalkerView, ActionView) {
        if parent_dir(self.destination(src)).len() == 0 {
            self.enter(PhaseView::Probing { src })
        } else {
            self.enter(PhaseView::MakingDirs { src })
        }
    }

    /// Moves on to the next entry that asks for work. A directory is
    /// listed, whatever the patterns say. A file whose path no pattern
    /// matches is passed over. With no entry left the walk is complete.
    pub open spec fn advance(self) -> (WalkerView, ActionView)
        decreases self.pending.len(),
    {
        if self.pending.len() == 0 {
            self.enter(PhaseView::Finished)
        } else {
            let entry = self.pending[0];
            let rest = self.with_pending(self.pending.skip(1));
            if entry.is_directory {
                rest.enter(PhaseView::Listing { path: entry.path })
            } else if selects(self.patterns, entry.path) {
                rest.begin_file(entry.path)
            } else {
                rest.advance()
            }
        }
    }

    /// The walk after `event`, and the action to carry out next.
    ///
    /// A listing puts its entries before all that are pending, so that a
    /// directory is walked to its end before its next sibling. A listing
    /// or a copy whose command did not succeed, a listing that cannot be
    /// read, and directories that cannot be made end the walk. A
    /// destination that exists is not copied to. An event that does not
    /// answer the awaited action changes nothing, and the action is handed
    /// out again.
    pub open spec fn step(self, event: EventView) -> (WalkerView, ActionView) {
        match (self.phase, event) {
            (PhaseView::Listing { path }, EventView::Listed(Err(why))) => self.fail(
                path,
                ErrorView { kind: ErrorKind::HdfsDfsLs, cause: CauseView::Msg { msg: why } },
            ),
            (PhaseView::Listing { path }, EventView::Listed(Ok(output))) => match stdout_text(
                output,
            ) {
                Err(e) => self.fail(path, e),
                Ok(text) => match listing_of(text) {
                    Err(e) => self.fail(path, e),
                    Ok(entries) => self.with_pending(entries + self.pending).advance(),
                },
            },
            (PhaseView::MakingDirs { src }, EventView::DirsCreated(Err(why))) => self.fail(
                src,
                ErrorView {
                    kind: ErrorKind::DirsCreate,
                    cause: CauseView::Path {
                        path: parent_dir(self.destination(src)),
                        inner: why,
                    },
                },
            ),
            (PhaseView::MakingDirs { src }, EventView::DirsCreated(Ok(_))) => self.enter(
                PhaseView::Probing { src },
            ),
            (PhaseView::Probing { src }, EventView::Exists(there)) => if there {
                self.advance()
            } else {
                self.enter(PhaseView::Copying { src })
            },
            (PhaseView::Copying { src }, EventView::Copied(Err(why))) => self.fail(
                src,
                ErrorView { kind: ErrorKind::HdfsCopyToLocal, cause: CauseView::Msg { msg: why } },
            ),
            (PhaseView::Copying { src }, EventView::Copied(Ok(output))) => match stdout_text(
                output,
            ) {
                Err(e) => self.fail(src, e),
                Ok(_) => self.advance(),
            },
            _ => (self, self.awaited()),
        }
    }
}

/// Where a walk moves on to does not depend on what it waited for.
pub proof fn lemma_advance_any_phase(s: WalkerView, phase: PhaseView)
    ensures
        s.in_phase(phase).advance() == s.advance(),
    decreases s.pending.len(),
{
    if s.pending.len() > 0 {
        let rest = s.with_pending(s.pending.skip(1));
        lemma_advance_any_phase(rest, phase);
    }
}

/// What moving on can lead to: the end of the walk, the listing of a
/// directory, or the first step towards copying a file that a pattern
/// matches. It never copies, never fails, and leaves the local root and
/// the patterns as they are.
pub proof fn lemma_advance(s: WalkerView)
    ensures
        s.advance().1 == s.advance().0.awaited(),
        s.advance().0.local_root == s.local_root,
        s.advance().0.patterns == s.patterns,
        match s.advance().0.phase {
            PhaseView::Finished => s.advance().0.pending.len() == 0,
            PhaseView::Listing { .. } => true,
            PhaseView::MakingDirs { src } => selects(s.patterns, src),
            PhaseView::Probing { src } => selects(s.patterns, src),
            PhaseView::Copying { .. } => false,
            PhaseView::Failed { .. } => false,
        },
    decreases s.pending.len(),
{
    if s.pending.len() > 0 {
        lemma_advance(s.with_pending(s.pending.skip(1)));
    }
}

/// A file whose destination exists is not copied again, whatever has
/// become of the remote file since: the walk moves on to the next entry,
/// and it does not fail.
pub proof fn lemma_existing_file_is_kept(s: WalkerView)
    requires
        s.phase is Probing,
    ensures
        s.step(EventView::Exists(true)) == s.advance(),
        !(s.step(EventView::Exists(true)).1 is Copy),
        !(s.step(EventView::Exists(true)).1 is Abort),
{
    lemma_advance(s);
}

/// A copy is asked for in one situation only: the file was probed and
/// nothing stands at its destination, which is the file's path under the
/// local root. (The same copy is asked for again where the answer to it is
/// still due.)
pub proof fn lemma_copy_only_where_absent(s: WalkerView, event: EventView)
    requires
        s.step(event).1 is Copy,
    ensures
        s.step(event).1->to == destination(s.local_root, s.step(event).1->from),
        s.phase == (PhaseView::Probing { src: s.step(event).1->from }) && event
            == EventView::Exists(false) || s.phase == (PhaseView::Copying {
            src: s.step(event).1->from,
        }) && !(event is Copied),
{
    lemma_advance(s);
    match (s.phase, event) {
        (PhaseView::Listing { path }, EventView::Listed(Ok(output))) => {
            if stdout_text(output) is Ok && listing_of(stdout_text(output)->Ok_0) is Ok {
                lemma_advance(
                    s.with_pending(listing_of(stdout_text(output)->Ok_0)->Ok_0 + s.pending),
                );
            }
        },
        _ => {},
    }
}

/// A copy that fails ends the walk at once: whether the command could not
/// be run or ended with a status other than success, the answer is
/// `Abort`, the walk has failed on that file, and the entries that were
/// pending stay untouched.
pub proof fn lemma_failed_copy_ends_walk(s: WalkerView, ran: Result<OutputView, Seq<char>>)
    requires
        s.phase is Copying,
        ran matches Ok(output) ==> !output.success(),
    ensures
        s.step(EventView::Copied(ran)).1 == ActionView::Abort,
        s.step(EventView::Copied(ran)).0.phase is Failed,
        s.step(EventView::Copied(ran)).0.phase->Failed_path == s.phase->Copying_src,
        s.step(EventView::Copied(ran)).0.pending == s.pending,
        ran matches Ok(output) ==> s.step(EventView::Copied(ran)).0.phase->error == stdout_text(
            output,
        )->Err_0,
{
}

/// A walk that has ended stays ended: whatever is reported to it, it asks
/// for nothing more and does not change.
pub proof fn lemma_ended_walk_stays(s: WalkerView, event: EventView)
    ensures
        s.phase is Failed ==> s.step(event) == (s, ActionView::Abort),
        s.phase is Finished ==> s.step(event) == (s, ActionView::Finish),
{
}

/// Patterns apply to files only: a directory that comes next is listed,
/// whatever the patterns are.
pub proof fn lemma_directory_is_entered(s: WalkerView)
    requires
        s.pending.len() > 0,
        s.pending[0].is_directory,
    ensures
        s.advance().1 == (ActionView::List { path: s.pending[0].path }),
        s.advance().0.pending == s.pending.skip(1),
{
}

/// A file that no pattern matches is passed over in silence.
pub proof fn lemma_unmatched_file_is_passed(s: WalkerView)
    requires
        s.pending.len() > 0,
        !s.pending[0].is_directory,
        !selects(s.patterns, s.pending[0].path),
    ensures
        s.advance() == s.with_pending(s.pending.skip(1)).advance(),
{
}

/// Without patterns no file is ever copied: moving on leads to a listing
/// or to the end.
pub proof fn lemma_no_pattern_no_copy(s: WalkerView)
    requires
        s.patterns.len() == 0,
    ensures
        s.advance().1 is List || s.advance().1 is Finish,
    decreases s.pending.len(),
{
    if s.pending.len() > 0 {
        lemma_no_pattern_no_copy(s.with_pending(s.pending.skip(1)));
    }
}

/// The start of a walk of `remote_root` into `local_root`: the root is
/// listed first.
pub open spec fn start(
    remote_root: Seq<char>,
    local_root: Seq<char>,
    patterns: Seq<Seq<char>>,
) -> (WalkerView, ActionView) {
    (WalkerView { local_root, patterns, pending: Seq::empty(), phase: PhaseView::Finished }).enter(
        PhaseView::Listing { path: remote_root },
    )
}

/// Puts `entries` before all that are pending.
fn enqueue(pending: &mut Vec<Entry>, entries: Vec<Entry>)
    ensures
        entry_views(final(pending)@).reverse() == entry_views(entries@) + entry_views(
            old(pending)@,
        ).reverse(),
{
    let ghost all = entry_views(entries@);
    let ghost before = entry_views(pending@).reverse();
    let mut entries = entries;
    while entries.len() > 0
        invariant
            entries@.len() <= all.len(),
            entry_views(entries@) == all.take(entries@.len() as int),
            entry_views(pending@).reverse() == all.skip(entries@.len() as int) + before,
        decreases entries@.len(),
    {
        let ghost left = entries@.len() as int;
        let entry = entries.pop().unwrap();
        pending.push(entry);
        proof {
            assert(entry@ == all.take(left)[left - 1]);
            assert(seq![entry@] + (all.skip(left) + before) =~= all.skip(left - 1) + before);
        }
    }
}

impl Walker {
    /// The action that the walk waits on.
    pub fn awaited(&self) -> (r: Action)
        ensures
            r@ == self@.awaited(),
    {
        match &self.phase {
            Phase::Listing { path } => Action::List { path: path.clone() },
            Phase::MakingDirs { src } => {
                let to = local_destination(self.local_root.as_str(), src.as_str());
                Action::CreateDirs { path: parent_of(to.as_str()) }
            },
            Phase::Probing { src } => Action::CheckExists {
                path: local_destination(self.local_root.as_str(), src.as_str()),
            },
            Phase::Copying { src } => Action::Copy {
                from: src.clone(),
                to: local_destination(self.local_root.as_str(), src.as_str()),
            },
            Phase::Finished => Action::Finish,
            Phase::Failed { .. } => Action::Abort,
        }
    }

    /// The walk in the given phase, and the action that it then waits on.
    fn enter(self, phase: Phase) -> (r: (Walker, Action))
        ensures
            (r.0@, r.1@) == self@.enter(phase@),
    {
        let next = Walker {
            local_root: self.local_root,
            filter: self.filter,
            pending: self.pending,
            phase,
        };
        let action = next.awaited();
        (next, action)
    }

    /// The first steps towards copying the remote file `src`.
    fn begin_file(self, src: String) -> (r: (Walker, Action))
        ensures
            (r.0@, r.1@) == self@.begin_file(src@),
    {
        let to = local_destination(self.local_root.as_str(), src.as_str());
        if parent_of(to.as_str()).as_str().is_empty() {
            self.enter(Phase::Probing { src })
        } else {
            self.enter(Phase::MakingDirs { src })
        }
    }

    /// Moves on to the next entry that asks for work.
    fn advance(self) -> (r: (Walker, Action))
        ensures
            (r.0@, r.1@) == self@.advance(),
    {
        let ghost start = self@;
        let mut walker = self;
        loop
            invariant
                start == self@,
                walker@.advance() == start.advance(),
            decreases walker@.pending.len(),
        {
            let ghost queued = entry_views(walker.pending@);
            match walker.pending.pop() {
                None => {
                    return walker.enter(Phase::Finished);
                },
                Some(entry) => {
                    proof {
                        assert(entry_views(walker.pending@) =~= queued.drop_last());
                        assert(queued.drop_last().reverse() =~= queued.reverse().skip(1));
                    }
                    if entry.is_directory() {
                        return walker.enter(Phase::Listing { path: entry.path().to_owned() });
                    } else if walker.filter.selects(entry.path()) {
                        return walker.begin_file(entry.path().to_owned());
                    }
                },
            }
        }
    }

    /// The walk after work on the remote path `path` failed with `error`.
    fn fail(self, path: String, error: Error) -> (r: (Walker, Action))
        ensures
            (r.0@, r.1@) == self@.fail(path@, error@),
    {
        self.enter(Phase::Failed { path, error })
    }

    /// Starts a walk of the remote directory `remote_root` into the local
    /// directory `local_root`. The first action lists the remote root.
    pub fn new(remote_root: &str, local_root: &str, filter: Filter) -> (r: (Walker, Action))
        ensures
            (r.0@, r.1@) == start(remote_root@, local_root@, filter@),
    {
        let walker = Walker {
            local_root: local_root.to_owned(),
            filter,
            pending: Vec::new(),
            phase: Phase::Finished,
        };
        walker.enter(Phase::Listing { path: remote_root.to_owned() })
    }

    /// Takes in what came of the awaited action and says what to do next.
    pub fn step(self, event: Event) -> (r: (Walker, Action))
        ensures
            (r.0@, r.1@) == self@.step(event@),
    {
        let Walker { local_root, filter, pending, phase } = self;
        match (phase, event) {
            (Phase::Listing { path }, Event::Listed(Err(why))) => {
                let walker = Walker { local_root, filter, pending, phase: Phase::Finished };
                walker.fail(path, Error::new(ErrorKind::HdfsDfsLs, Cause::Msg(MsgError::new(why))))
            },
            (Phase::Listing { path }, Event::Listed(Ok(output))) => {
                let mut pending = pending;
                let listed = match extract_output_stdout_str(output) {
                    Ok(text) => parse_ls(text.as_str()),
                    Err(e) => Err(e),
                };
                match listed {
                    Ok(entries) => {
                        enqueue(&mut pending, entries);
                        let walker = Walker { local_root, filter, pending, phase: Phase::Finished };
                        proof {
                            lemma_advance_any_phase(walker@, self@.phase);
                        }
                        walker.advance()
                    },
                    Err(e) => (Walker {
                        local_root,
                        filter,
                        pending,
                        phase: Phase::Finished,
                    }).fail(path, e),
                }
            },
            (Phase::MakingDirs { src }, Event::DirsCreated(Err(why))) => {
                let to = local_destination(local_root.as_str(), src.as_str());
                let error = Error::new(
                    ErrorKind::DirsCreate,
                    Cause::Path(PathError::new(parent_of(to.as_str()), why)),
                );
                (Walker { local_root, filter, pending, phase: Phase::Finished }).fail(src, error)
            },
            (Phase::MakingDirs { src }, Event::DirsCreated(Ok(_))) => (Walker {
                local_root,
                filter,
                pending,
                phase: Phase::Finished,
            }).enter(Phase::Probing { src }),
            (Phase::Probing { src }, Event::Exists(there)) => {
                let walker = Walker { local_root, filter, pending, phase: Phase::Finished };
                proof {
                    lemma_advance_any_phase(walker@, self@.phase);
                }
                if there {
                    walker.advance()
                } else {
                    walker.enter(Phase::Copying { src })
                }
            },
            (Phase::Copying { src }, Event::Copied(Err(why))) => (Walker {
                local_root,
                filter,
                pending,
                phase: Phase::Finished,
            }).fail(
                src,
                Error::new(ErrorKind::HdfsCopyToLocal, Cause::Msg(MsgError::new(why))),
            ),
            (Phase::Copying { src }, Event::Copied(Ok(output))) => {
                let walker = Walker { local_root, filter, pending, phase: Phase::Finished };
                proof {
                    lemma_advance_any_phase(walker@, self@.phase);
                }
                match extract_output_stdout_str(output) {
                    Ok(_) => walker.advance(),
                    Err(e) => walker.fail(src, e),
                }
            },
            (phase, event) => {
                let walker = Walker { local_root, filter, pending, phase };
                let action = walker.awaited();
                (walker, action)
            },
        }
    }

    /// Whether the walk is complete.
    pub fn is_finished(&self) -> (r: bool)
        ensures
            r == (self@.phase is Finished),
    {
        match &self.phase {
            Phase::Finished => true,
            _ => false,
        }
    }

    /// The failure that ended the walk, if one did.
    pub fn failure(&self) -> (r: Option<&Error>)
        ensures
            match r {
                Some(e) => self@.phase is Failed && e@ == self@.phase->error,
                None => !(self@.phase is Failed),
            },
    {
        match &self.phase {
            Phase::Failed { error, .. } => Some(error),
            _ => None,
        }
    }

    /// The remote path on which the walk failed, if it did.
    pub fn failed_path(&self) -> (r: Option<&str>)
        ensures
            match r {
                Some(p) => self@.phase is Failed && p@ == self@.phase->Failed_path,
                None => !(self@.phase is Failed),
            },
    {
        match &self.phase {
            Phase::Failed { path, .. } => Some(path.as_str()),
            _ => None,
        }
    }
}

} // verus!
