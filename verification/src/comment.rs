//! Transfer comments: the optional human-readable payload attached to a
//! transfer message. A present-but-empty comment is a payload of its own,
//! distinct from no comment at all, and the two stay distinguishable all the
//! way into the message.

use vstd::prelude::*;
use vstd::string::StringSliceAdditionalSpecFns;

use crate::errors::ExitCode;

verus! {

/// The most bytes of UTF-8 text a comment payload accepts; a longer comment
/// does not fit the message body and fails the submission instead of being
/// silently dropped.
pub const MAX_COMMENT_BYTES: usize = 4096;

/// A comment carried by a transfer as its message payload; possibly empty.
#[derive(Debug, Clone, PartialEq, Eq)]
pub struct CommentPayload {
    pub text: String,
}

/// Whether a comment's text fits the message body.
pub open spec fn comment_fits(c: Seq<char>) -> bool {
    vstd::utf8::encode_utf8(c).len() <= MAX_COMMENT_BYTES
}

/// Encodes an optional comment for the transfer message: no comment stays
/// absent, a present comment — the empty one included — becomes a payload,
/// and an oversize comment fails with the bad-comment status.
pub fn encode_comment(comment: Option<String>) -> (r: Result<
    Option<CommentPayload>,
    ExitCode,
>)
    ensures
        comment is None ==> r == Ok::<Option<CommentPayload>, ExitCode>(None),
        comment matches Some(c) ==> (if comment_fits(c@) {
            r == Ok::<Option<CommentPayload>, ExitCode>(Some(CommentPayload { text: c }))
        } else {
            r == Err::<Option<CommentPayload>, ExitCode>(ExitCode::BadComment)
        }),
{
    if comment.is_some() {
        let c = comment.unwrap();
        let cs = c.as_str();
        let bl = cs.as_bytes().len();
        proof {
            assert(cs.spec_bytes() == vstd::utf8::encode_utf8(c@));
            assert(bl == vstd::utf8::encode_utf8(c@).len());
        }
        if bl <= MAX_COMMENT_BYTES {
            Ok(Some(CommentPayload { text: c }))
        } else {
            Err(ExitCode::BadComment)
        }
    } else {
        Ok(None)
    }
}

} // verus!
