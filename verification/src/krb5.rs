//! The credential client: how a ticket is asked for.

use crate::error::{result_view, Cause, CauseView, Error, ErrorKind, ErrorView, MsgError};
use crate::util::process::{
    extract_output_stdout_str, stdout_text, Invocation, InvocationView, Output, OutputView,
};
use std::path::PathBuf;
use vstd::prelude::*;

verus! {

/// The name of the credential client's executable.
pub const KINIT: &'static str = "kinit";

/// How a principal proves who it is.
#[derive(Debug, PartialEq, Eq)]
pub enum Auth {
    /// With a password.
    Password(String),
    /// With the keytab file at this path.
    Keytab(String),
}

/// An [`Auth`] with its string as a sequence of characters.
pub enum AuthView {
    Password(Seq<char>),
    Keytab(Seq<char>),
}

impl View for Auth {
    type V = AuthView;

    open spec fn view(&self) -> AuthView {
        match *self {
            Auth::Password(password) => AuthView::Password(password@),
            Auth::Keytab(keytab) => AuthView::Keytab(keytab@),
        }
    }
}

/// The credential client, by the path of its executable.
#[derive(Debug)]
pub struct Krb5 {
    kinit: PathBuf,
}

/// The arguments that ask for a ticket for the principal `name`. A keytab
/// is named in the arguments. A password is not: it would show in the
/// process list.
pub open spec fn kinit_args(name: Seq<char>, auth: AuthView) -> Seq<Seq<char>> {
    match auth {
        AuthView::Password(_) => seq![name],
        AuthView::Keytab(keytab) => seq!["-k"@, "-t"@, keytab, name],
    }
}

/// What the credential client is fed on its standard input: the password,
/// where there is one.
pub open spec fn kinit_stdin(auth: AuthView) -> Option<Seq<char>> {
    match auth {
        AuthView::Password(password) => Some(password),
        AuthView::Keytab(_) => None,
    }
}

/// The kind of a failure to run the credential client.
pub open spec fn kinit_failure(auth: AuthView) -> ErrorKind {
    match auth {
        AuthView::Password(_) => ErrorKind::KinitPw,
        AuthView::Keytab(_) => ErrorKind::KinitKeytab,
    }
}

/// What a run of the credential client gives: its standard output as
/// text, where `ran` is how it ended or why it could not be run.
pub open spec fn ticket_from(auth: AuthView, ran: Result<OutputView, Seq<char>>) -> Result<
    Seq<char>,
    ErrorView,
> {
    match ran {
        Err(why) => Err(
            ErrorView { kind: kinit_failure(auth), cause: CauseView::Msg { msg: why } },
        ),
        Ok(output) => stdout_text(output),
    }
}

impl Krb5 {
    /// The path of the executable.
    pub closed spec fn spec_path(&self) -> PathBuf {
        self.kinit
    }

    /// A client that runs the executable at `kinit`.
    pub fn with_path(kinit: PathBuf) -> (r: Krb5)
        ensures
            r.spec_path() == kinit,
    {
        Krb5 { kinit }
    }

    /// The path of the executable.
    pub fn path(&self) -> (r: &PathBuf)
        ensures
            *r == self.spec_path(),
    {
        &self.kinit
    }

    /// The command that asks for a ticket for the principal `name`.
    pub fn kinit(&self, name: &str, auth: &Auth) -> (r: Invocation<'_>)
        ensures
            r@ == (InvocationView {
                program: self.spec_path(),
                args: kinit_args(name@, auth@),
                stdin: kinit_stdin(auth@),
            }),
    {
        let mut args: Vec<String> = Vec::new();
        match auth {
            Auth::Password(password) => {
                args.push(name.to_owned());
                proof {
                    assert(args.deep_view() =~= kinit_args(name@, auth@));
                }
                Invocation { program: &self.kinit, args, stdin: Some(password.clone()) }
            },
            Auth::Keytab(keytab) => {
                args.push("-k".to_owned());
                args.push("-t".to_owned());
                args.push(keytab.clone());
                args.push(name.to_owned());
                proof {
                    assert(args.deep_view() =~= kinit_args(name@, auth@));
                }
                Invocation { program: &self.kinit, args, stdin: None }
            },
        }
    }

    /// What a run of the credential client gives, where `ran` is how it
    /// ended or why it could not be run.
    pub fn ticket(auth: &Auth, ran: Result<Output, String>) -> (r: Result<String, Error>)
        ensures
            result_view(r) == ticket_from(
                auth@,
                match ran {
                    Ok(output) => Ok(output@),
                    Err(why) => Err(why@),
                },
            ),
    {
        match ran {
            Err(why) => {
                let kind = match auth {
                    Auth::Password(_) => ErrorKind::KinitPw,
                    Auth::Keytab(_) => ErrorKind::KinitKeytab,
                };
                Err(Error::new(kind, Cause::Msg(MsgError::new(why))))
            },
            Ok(output) => extract_output_stdout_str(output),
        }
    }
}

} // verus!
