//! Validation of one send request: the destination address text and the
//! optional comment are checked up front — before anything is spawned or
//! fetched — and become the transfer request the submission engine works for.

use vstd::prelude::*;
use vstd::string::StringSliceAdditionalSpecFns;

use crate::address::{parse_address, valid_address_text, Address};
use crate::comment::{comment_fits, encode_comment, CommentPayload};
use crate::errors::ExitCode;

verus! {

/// How many seconds a transfer or deploy message stays valid before its
/// timeout must be refreshed.
pub const MESSAGE_EXPIRATION_SECS: u32 = 60;

/// Whether a transfer bounces back when the destination cannot receive it;
/// plain wallet transfers are sent without bounce.
pub const TRANSFER_BOUNCE: bool = false;

/// A validated transfer request: everything the driver needs to build the
/// transfer message.
#[derive(Debug, Clone)]
pub struct TransferRequest {
    pub to: Address,
    pub amount: u64,
    pub bounce: bool,
    pub payload: Option<CommentPayload>,
    pub expiration_secs: u32,
}

/// Validates a send request. The destination must be well-formed address
/// text, else the bad-address status; the comment, when present, must fit,
/// else the bad-comment status; an empty comment is kept as an empty payload.
pub fn prepare_send(to: &str, amount: u64, comment: Option<String>) -> (r: Result<
    TransferRequest,
    ExitCode,
>)
    ensures
        !valid_address_text(to.spec_bytes()) ==> r == Err::<TransferRequest, ExitCode>(
            ExitCode::BadAddress,
        ),
        valid_address_text(to.spec_bytes()) && (comment matches Some(c) && !comment_fits(c@))
            ==> r == Err::<TransferRequest, ExitCode>(ExitCode::BadComment),
        valid_address_text(to.spec_bytes()) && (comment is None || (comment matches Some(c)
            && comment_fits(c@))) ==> ({
            &&& r is Ok
            &&& r matches Ok(req) ==> {
                &&& req.to.wf()
                &&& req.to.workchain == crate::address::workchain_value(
                    to.spec_bytes().take(to.spec_bytes().len() - 65),
                )
                &&& req.to.account@ == crate::hexcodec::hex_bytes(
                    to.spec_bytes().skip(to.spec_bytes().len() - 64),
                )
                &&& req.amount == amount
                &&& req.bounce == TRANSFER_BOUNCE
                &&& (comment is None ==> req.payload is None)
                &&& (comment matches Some(c) ==> req.payload == Some(
                    CommentPayload { text: c },
                ))
                &&& req.expiration_secs == MESSAGE_EXPIRATION_SECS
            }
        }),
{
    let to = match parse_address(to) {
        Some(a) => a,
        None => {
            return Err(ExitCode::BadAddress);
        },
    };
    let payload = match encode_comment(comment) {
        Ok(p) => p,
        Err(e) => {
            return Err(e);
        },
    };
    Ok(
        TransferRequest {
            to,
            amount,
            bounce: TRANSFER_BOUNCE,
            payload,
            expiration_secs: MESSAGE_EXPIRATION_SECS,
        },
    )
}

} // verus!
