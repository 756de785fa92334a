//! The remote filesystem client: how it is called, what its output means,
//! and the mirror walk.

pub mod bits;
pub mod df;
pub mod ls;
pub mod mirror;
pub mod path;
pub mod perm;
pub mod time;

use crate::error::{result_view, Cause, CauseView, Error, ErrorKind, ErrorView, MsgError};
use crate::hdfs::df::{parse_df, usage_of, UsageRecord, UsageRecordView};
use crate::hdfs::mirror::{Action, ActionView};
use crate::util::process::{
    extract_output_stdout_str, stdout_text, Invocation, InvocationView, Output, OutputView,
};
use std::path::PathBuf;
use vstd::prelude::*;

verus! {

/// The name of the client's executable.
pub const HDFS: &'static str = "hdfs";

/// The client's subcommand for filesystem operations.
pub const DFS: &'static str = "dfs";

/// The command-line client of the remote filesystem, by the path of its
/// executable.
#[derive(Debug)]
pub struct Hdfs {
    p: PathBuf,
}

/// The arguments that list the remote directory `path`.
pub open spec fn ls_args(path: Seq<char>) -> Seq<Seq<char>> {
    seq![DFS@, "-ls"@, path]
}

/// The arguments that copy the remote file `from` to the local path `to`.
pub open spec fn copy_to_local_args(from: Seq<char>, to: Seq<char>) -> Seq<Seq<char>> {
    seq![DFS@, "-copyToLocal"@, from, to]
}

/// The arguments that report the space usage of the filesystem of `path`.
pub open spec fn df_args(path: Seq<char>) -> Seq<Seq<char>> {
    seq![DFS@, "-df"@, path]
}

/// The arguments of the command that carries out `action`, for the two
/// actions that are commands of the client.
pub open spec fn action_args(action: ActionView) -> Option<Seq<Seq<char>>> {
    match action {
        ActionView::List { path } => Some(ls_args(path)),
        ActionView::Copy { from, to } => Some(copy_to_local_args(from, to)),
        _ => None,
    }
}

/// What a usage report gives, where `ran` is how the command ended or why
/// it could not be run.
pub open spec fn usage_from(ran: Result<OutputView, Seq<char>>) -> Result<
    UsageRecordView,
    ErrorView,
> {
    match ran {
        Err(why) => Err(
            ErrorView { kind: ErrorKind::HdfsDfCmd, cause: CauseView::Msg { msg: why } },
        ),
        Ok(output) => match stdout_text(output) {
            Err(e) => Err(e),
            Ok(text) => usage_of(text),
        },
    }
}

impl Hdfs {
    /// The path of the executable.
    pub closed spec fn spec_path(&self) -> PathBuf {
        self.p
    }

    /// A client that runs the executable at `p`.
    pub fn with_path(p: PathBuf) -> (r: Hdfs)
        ensures
            r.spec_path() == p,
    {
        Hdfs { p }
    }

    /// The path of the executable.
    pub fn path(&self) -> (r: &PathBuf)
        ensures
            *r == self.spec_path(),
    {
        &self.p
    }

    /// A run of the client with the given arguments.
    fn run(&self, args: Vec<String>) -> (r: Invocation<'_>)
        ensures
            r@ == (InvocationView {
                program: self.spec_path(),
                args: args.deep_view(),
                stdin: None,
            }),
    {
        Invocation { program: &self.p, args, stdin: None }
    }

    /// The command that lists the remote directory `path`.
    pub fn ls(&self, path: &str) -> (r: Invocation<'_>)
        ensures
            r@ == (InvocationView {
                program: self.spec_path(),
                args: ls_args(path@),
                stdin: None,
            }),
    {
        let mut args: Vec<String> = Vec::new();
        args.push(DFS.to_owned());
        args.push("-ls".to_owned());
        args.push(path.to_owned());
        proof {
            assert(args.deep_view() =~= ls_args(path@));
        }
        self.run(args)
    }

    /// The command that copies the remote file `from` to the local path
    /// `to`.
    pub fn copy_to_local(&self, from: &str, to: &str) -> (r: Invocation<'_>)
        ensures
            r@ == (InvocationView {
                program: self.spec_path(),
                args: copy_to_local_args(from@, to@),
                stdin: None,
            }),
    {
        let mut args: Vec<String> = Vec::new();
        args.push(DFS.to_owned());
        args.push("-copyToLocal".to_owned());
        args.push(from.to_owned());
        args.push(to.to_owned());
        proof {
            assert(args.deep_view() =~= copy_to_local_args(from@, to@));
        }
        self.run(args)
    }

    /// The command that reports the space usage of the filesystem of
    /// `path`.
    pub fn df(&self, path: &str) -> (r: Invocation<'_>)
        ensures
            r@ == (InvocationView {
                program: self.spec_path(),
                args: df_args(path@),
                stdin: None,
            }),
    {
        let mut args: Vec<String> = Vec::new();
        args.push(DFS.to_owned());
        args.push("-df".to_owned());
        args.push(path.to_owned());
        proof {
            assert(args.deep_view() =~= df_args(path@));
        }
        self.run(args)
    }

    /// The command that carries out `action`, or `None` where the action is
    /// no command of the client.
    pub fn command(&self, action: &Action) -> (r: Option<Invocation<'_>>)
        ensures
            r is Some <==> action_args(action@) is Some,
            r matches Some(run) ==> run@ == (InvocationView {
                program: self.spec_path(),
                args: action_args(action@)->Some_0,
                stdin: None,
            }),
    {
        match action {
            Action::List { path } => Some(self.ls(path.as_str())),
            Action::Copy { from, to } => Some(self.copy_to_local(from.as_str(), to.as_str())),
            _ => None,
        }
    }

    /// The usage record that a run of the usage command gives, where `ran`
    /// is how the command ended or why it could not be run.
    pub fn usage(ran: Result<Output, String>) -> (r: Result<UsageRecord, Error>)
        ensures
            result_view(r) == usage_from(
                match ran {
                    Ok(output) => Ok(output@),
                    Err(why) => Err(why@),
                },
            ),
    {
        match ran {
            Err(why) => Err(Error::new(ErrorKind::HdfsDfCmd, Cause::Msg(MsgError::new(why)))),
            Ok(output) => {
                let text = extract_output_stdout_str(output)?;
                parse_df(text.as_str())
            },
        }
    }
}

} // verus!
