//! The crate-wide error type and its taxonomy.

use vstd::prelude::*;

verus! {

/// What went wrong, independent of the human-readable message.
#[derive(Clone, Copy, Debug, PartialEq, Eq, Structural)]
pub enum ErrorKind {
    /// Malformed or missing configuration.
    Config,
    /// A student-record operation failed.
    Student,
    /// A grade-record operation failed.
    Grade,
    /// The caller may not do this.
    Permission,
    /// A scripted command was malformed or failed.
    Command,
    /// The reply pipeline failed.
    Reply,
    /// An internal invariant was violated by the embedding program.
    Internal,
    /// The named resource does not exist.
    NotFound,
    /// User input was rejected before any work was done.
    Validation,
    /// The upstream completion endpoint answered with a failure.
    Upstream,
}

/// Mathematical image of [`AppError`].
pub ghost struct AppErrorView {
    pub kind: ErrorKind,
    pub message: Seq<char>,
}

/// One error of this crate: a kind plus a human-readable message.
#[derive(Clone, Debug)]
pub struct AppError {
    pub kind: ErrorKind,
    pub message: String,
}

impl View for AppError {
    type V = AppErrorView;

    open spec fn view(&self) -> AppErrorView {
        AppErrorView { kind: self.kind, message: self.message@ }
    }
}

impl AppError {
    pub fn new(kind: ErrorKind, message: String) -> (r: Self)
        ensures
            r@ == (AppErrorView { kind, message: message@ }),
    {
        AppError { kind, message }
    }

    pub fn kind(&self) -> (r: ErrorKind)
        ensures
            r == self@.kind,
    {
        self.kind
    }

    /// The human-readable message, for display at the transport edge.
    pub fn message(&self) -> (r: String)
        ensures
            r@ == self@.message,
    {
        self.message.clone()
    }

    pub fn duplicate(&self) -> (r: Self)
        ensures
            r@ == self@,
    {
        AppError { kind: self.kind, message: self.message.clone() }
    }

    pub fn config(message: String) -> (r: Self)
        ensures
            r@ == (AppErrorView { kind: ErrorKind::Config, message: message@ }),
    {
        AppError { kind: ErrorKind::Config, message }
    }

    pub fn student(message: String) -> (r: Self)
        ensures
            r@ == (AppErrorView { kind: ErrorKind::Student, message: message@ }),
    {
        AppError { kind: ErrorKind::Student, message }
    }

    pub fn grade(message: String) -> (r: Self)
        ensures
            r@ == (AppErrorView { kind: ErrorKind::Grade, message: message@ }),
    {
        AppError { kind: ErrorKind::Grade, message }
    }

    pub fn permission(message: String) -> (r: Self)
        ensures
            r@ == (AppErrorView { kind: ErrorKind::Permission, message: message@ }),
    {
        AppError { kind: ErrorKind::Permission, message }
    }

    pub fn command(message: String) -> (r: Self)
        ensures
            r@ == (AppErrorView { kind: ErrorKind::Command, message: message@ }),
    {
        AppError { kind: ErrorKind::Command, message }
    }

    pub fn reply(message: String) -> (r: Self)
        ensures
            r@ == (AppErrorView { kind: ErrorKind::Reply, message: message@ }),
    {
        AppError { kind: ErrorKind::Reply, message }
    }

    pub fn internal(message: String) -> (r: Self)
        ensures
            r@ == (AppErrorView { kind: ErrorKind::Internal, message: message@ }),
    {
        AppError { kind: ErrorKind::Internal, message }
    }

    pub fn not_found(resource: String) -> (r: Self)
        ensures
            r@ == (AppErrorView { kind: ErrorKind::NotFound, message: resource@ }),
    {
        AppError { kind: ErrorKind::NotFound, message: resource }
    }

    pub fn validation(message: String) -> (r: Self)
        ensures
            r@ == (AppErrorView { kind: ErrorKind::Validation, message: message@ }),
    {
        AppError { kind: ErrorKind::Validation, message }
    }

    pub fn upstream(message: String) -> (r: Self)
        ensures
            r@ == (AppErrorView { kind: ErrorKind::Upstream, message: message@ }),
    {
        AppError { kind: ErrorKind::Upstream, message }
    }
}

/// Result alias used throughout the crate.
pub type AppResult<T> = Result<T, AppError>;

} // verus!
