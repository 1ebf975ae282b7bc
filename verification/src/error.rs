//! Runtime failures of the work done for one invocation.

use vstd::prelude::*;

verus! {

/// A runtime failure, by the layer it came from. Each variant carries the
/// description of the underlying cause, as it goes to the operational log.
#[derive(Debug, PartialEq, Eq)]
pub enum AppError {
    /// The hosting runtime or the transport failed.
    WorkerError(String),
    /// The HTTPS client failed.
    ReqwestError(String),
    /// The bot API client failed, or the bot API rejected the call.
    BoxError(String),
}

/// An [`AppError`] with its description as a sequence of characters.
pub enum AppErrorView {
    WorkerError(Seq<char>),
    ReqwestError(Seq<char>),
    BoxError(Seq<char>),
}

impl AppErrorView {
    /// The description of the underlying cause.
    pub open spec fn message(self) -> Seq<char> {
        match self {
            AppErrorView::WorkerError(m) => m,
            AppErrorView::ReqwestError(m) => m,
            AppErrorView::BoxError(m) => m,
        }
    }
}

impl View for AppError {
    type V = AppErrorView;

    open spec fn view(&self) -> AppErrorView {
        match self {
            AppError::WorkerError(m) => AppErrorView::WorkerError(m@),
            AppError::ReqwestError(m) => AppErrorView::ReqwestError(m@),
            AppError::BoxError(m) => AppErrorView::BoxError(m@),
        }
    }
}

impl AppError {
    /// The description of the underlying cause.
    pub fn message(&self) -> (message: &String)
        ensures
            message@ == self@.message(),
    {
        match self {
            AppError::WorkerError(m) => m,
            AppError::ReqwestError(m) => m,
            AppError::BoxError(m) => m,
        }
    }

    /// Gives up the error for the description of its cause.
    pub fn into_message(self) -> (message: String)
        ensures
            message@ == self@.message(),
    {
        match self {
            AppError::WorkerError(m) => m,
            AppError::ReqwestError(m) => m,
            AppError::BoxError(m) => m,
        }
    }
}

} // verus!
