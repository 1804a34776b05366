//! The errors with which the server refuses a request.
use crate::session::{ContenderSessionInfo, InfoModel};
use vstd::prelude::*;

verus! {

/// Why a request was refused.
pub enum ContenderRpcError {
    /// There is no session of this number.
    SessionNotFound(usize),
    /// The session is not spamming.
    SessionNotBusy(usize),
    /// The session is spamming already.
    SessionBusy(ContenderSessionInfo),
    /// The session has failed.
    SessionFailed { info: ContenderSessionInfo, error: String },
    /// The session is not ready yet.
    SessionNotInitialized(ContenderSessionInfo),
    /// The parameters do not make sense.
    InvalidArguments(String),
}

/// What a [`ContenderRpcError`] tells.
pub enum ErrorModel {
    SessionNotFound(usize),
    SessionNotBusy(usize),
    SessionBusy(InfoModel),
    SessionFailed { info: InfoModel, error: Seq<char> },
    SessionNotInitialized(InfoModel),
    InvalidArguments(Seq<char>),
}

impl View for ContenderRpcError {
    type V = ErrorModel;

    open spec fn view(&self) -> ErrorModel {
        match self {
            ContenderRpcError::SessionNotFound(id) => ErrorModel::SessionNotFound(*id),
            ContenderRpcError::SessionNotBusy(id) => ErrorModel::SessionNotBusy(*id),
            ContenderRpcError::SessionBusy(info) => ErrorModel::SessionBusy(info@),
            ContenderRpcError::SessionFailed { info, error } => ErrorModel::SessionFailed {
                info: info@,
                error: error@,
            },
            ContenderRpcError::SessionNotInitialized(info) => ErrorModel::SessionNotInitialized(
                info@,
            ),
            ContenderRpcError::InvalidArguments(text) => ErrorModel::InvalidArguments(text@),
        }
    }
}

/// What a reply in words tells.
pub open spec fn reply(result: Result<String, ContenderRpcError>) -> Result<Seq<char>, ErrorModel> {
    match result {
        Ok(text) => Ok(text@),
        Err(e) => Err(e@),
    }
}

/// The model of an error leaves nothing out: it tells the variants apart, and
/// holds the number, the session or the text that the error carries.
pub proof fn error_model_is_faithful(error: ContenderRpcError)
    ensures
        match error {
            ContenderRpcError::SessionNotFound(id) => error@ == ErrorModel::SessionNotFound(id),
            ContenderRpcError::SessionNotBusy(id) => error@ == ErrorModel::SessionNotBusy(id),
            ContenderRpcError::SessionBusy(info) => error@ == ErrorModel::SessionBusy(info@),
            ContenderRpcError::SessionFailed { info, error: text } => error@ == (
            ErrorModel::SessionFailed { info: info@, error: text@ }),
            ContenderRpcError::SessionNotInitialized(info) => error@
                == ErrorModel::SessionNotInitialized(info@),
            ContenderRpcError::InvalidArguments(text) => error@ == ErrorModel::InvalidArguments(
                text@,
            ),
        },
{
}

/// The model of a reply is that of the text or the error that it carries.
pub proof fn reply_model_is_faithful(result: Result<String, ContenderRpcError>)
    ensures
        match result {
            Ok(text) => reply(result) == Ok::<Seq<char>, ErrorModel>(text@),
            Err(e) => reply(result) == Err::<Seq<char>, ErrorModel>(e@),
        },
{
}

} // verus!
