//! Error taxonomy of the submission engine and the status codes returned by
//! the exported entry points, together with the payload posted on a result
//! port.

use vstd::prelude::*;

verus! {

/// Terminal failure of one transfer submission.
#[derive(Debug, Clone)]
pub enum SendError {
    /// The transport reported a failure outside the deploy sub-procedure.
    TransportError(String),
    /// The sender's account does not exist on chain; nothing was broadcast.
    ContractDoesntExist,
    /// The signing backend refused the request (bad credential, unknown key).
    SignError,
    /// The deploy sub-procedure failed before the transfer was attempted.
    DeployError,
}

/// The message text reported for each error, as shown on the result port.
pub open spec fn send_error_text(e: SendError) -> Seq<char> {
    match e {
        SendError::TransportError(_) => "transport error"@,
        SendError::ContractDoesntExist => "Constract doesn't exist"@,
        SendError::SignError => "Sign error"@,
        SendError::DeployError => "Deploy error"@,
    }
}

impl SendError {
    /// Human-readable message; the detail carried by a transport error is
    /// logged by the driver, not shown to the caller.
    pub fn message(&self) -> (r: String)
        ensures
            r@ == send_error_text(*self),
    {
        match self {
            SendError::TransportError(_) => "transport error".to_owned(),
            SendError::ContractDoesntExist => "Constract doesn't exist".to_owned(),
            SendError::SignError => "Sign error".to_owned(),
            SendError::DeployError => "Deploy error".to_owned(),
        }
    }
}

/// What is posted on a per-call result port: either success or the failure
/// message.
#[derive(Debug, Clone)]
pub enum StringResult {
    Success(String),
    Error(String),
}

/// Maps a submission outcome to the payload for the result port: success is
/// posted with an empty message, a failure with its message text.
pub fn to_string_result(r: Result<(), SendError>) -> (out: StringResult)
    ensures
        match r {
            Ok(()) => out matches StringResult::Success(s) && s@ =~= Seq::<char>::empty(),
            Err(e) => out matches StringResult::Error(m) && m@ == send_error_text(e),
        },
{
    match r {
        Ok(()) => StringResult::Success(String::new()),
        Err(e) => StringResult::Error(e.message()),
    }
}

/// Status code returned by every exported entry point of the host boundary.
#[derive(Debug, Clone, Copy, PartialEq, Eq, Structural)]
pub enum ExitCode {
    Success,

    FailedToCreateRuntime,
    RuntimeIsNotInitialized,
    TransportIsNotInitialized,
    SubscriptionIsNotInitialized,
    FailedToSubscribeToTonWallet,
    FailedToCreateKeystore,

    InvalidUrl,
    InvalidPublicKey,

    BadPassword,
    BadKeystoreData,
    BadSignData,
    BadWallet,
    BadComment,
    BadAddress,

    NoContextProvided,
    BadCreateKeyData,
    BadUpdateData,
    BadExportData,
    NullOutputPointer,
    FailedToAddKey,
    FailedToRemoveKey,
    FailedToUpdateKey,
    FailedToExportKey,
}

/// The numeric code each status is marshalled to at the host boundary;
/// success is zero.
pub open spec fn exit_code_value(e: ExitCode) -> int {
    match e {
        ExitCode::Success => 0,
        ExitCode::FailedToCreateRuntime => 1,
        ExitCode::RuntimeIsNotInitialized => 2,
        ExitCode::TransportIsNotInitialized => 3,
        ExitCode::SubscriptionIsNotInitialized => 4,
        ExitCode::FailedToSubscribeToTonWallet => 5,
        ExitCode::FailedToCreateKeystore => 6,
        ExitCode::InvalidUrl => 7,
        ExitCode::InvalidPublicKey => 8,
        ExitCode::BadPassword => 9,
        ExitCode::BadKeystoreData => 10,
        ExitCode::BadSignData => 11,
        ExitCode::BadWallet => 12,
        ExitCode::BadComment => 13,
        ExitCode::BadAddress => 14,
        ExitCode::NoContextProvided => 15,
        ExitCode::BadCreateKeyData => 16,
        ExitCode::BadUpdateData => 17,
        ExitCode::BadExportData => 18,
        ExitCode::NullOutputPointer => 19,
        ExitCode::FailedToAddKey => 20,
        ExitCode::FailedToRemoveKey => 21,
        ExitCode::FailedToUpdateKey => 22,
        ExitCode::FailedToExportKey => 23,
    }
}

impl ExitCode {
    /// The numeric form sent across the host boundary.
    pub fn code(self) -> (r: i32)
        ensures
            r == exit_code_value(self),
    {
        match self {
            ExitCode::Success => 0,
            ExitCode::FailedToCreateRuntime => 1,
            ExitCode::RuntimeIsNotInitialized => 2,
            ExitCode::TransportIsNotInitialized => 3,
            ExitCode::SubscriptionIsNotInitialized => 4,
            ExitCode::FailedToSubscribeToTonWallet => 5,
            ExitCode::FailedToCreateKeystore => 6,
            ExitCode::InvalidUrl => 7,
            ExitCode::InvalidPublicKey => 8,
            ExitCode::BadPassword => 9,
            ExitCode::BadKeystoreData => 10,
            ExitCode::BadSignData => 11,
            ExitCode::BadWallet => 12,
            ExitCode::BadComment => 13,
            ExitCode::BadAddress => 14,
            ExitCode::NoContextProvided => 15,
            ExitCode::BadCreateKeyData => 16,
            ExitCode::BadUpdateData => 17,
            ExitCode::BadExportData => 18,
            ExitCode::NullOutputPointer => 19,
            ExitCode::FailedToAddKey => 20,
            ExitCode::FailedToRemoveKey => 21,
            ExitCode::FailedToUpdateKey => 22,
            ExitCode::FailedToExportKey => 23,
        }
    }
}

} // verus!
