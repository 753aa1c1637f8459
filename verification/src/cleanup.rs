//! The cleanup grammar: a message-id record (plain or resent), an
//! operational warning to skip, or a reject record delegated to the shared
//! reject grammar.

use vstd::prelude::*;
use vstd::string::StrSliceExecFns;
use crate::errors::ParseError;
use crate::inner::Inner;
use crate::messages::{gout_matches, GOut, Message, MessageParser, MsgOut};
use crate::reject::{spec_reject, Reject, RejectReason};
use crate::scan::{has_prefix, starts_with_at};

verus! {

/// A message-id record of the cleanup stage; `resent` tells which of the
/// two mutually exclusive keys introduced it.
#[derive(Debug)]
pub struct Cleanup {
    pub inner: Inner,
    pub message_id_s: usize,
    pub message_id_e: usize,
    pub resent: bool,
}

impl Cleanup {
    pub open spec fn wf(&self) -> bool {
        &&& self.inner.wf()
        &&& self.message_id_s <= self.message_id_e <= self.inner.raw@.len()
    }

    /// The message id, with surrounding angle brackets and a trailing
    /// newline stripped.
    pub fn message_id(&self) -> (r: &str)
        requires
            self.wf(),
        ensures
            r@ == self.inner.raw@.subrange(self.message_id_s as int, self.message_id_e as int),
    {
        self.inner.raw.as_str().substring_char(self.message_id_s, self.message_id_e)
    }
}

/// What the cleanup grammar yields on `t` from cursor `st`.  A line with
/// no queue id that is an operational warning is skipped; a ` reject: `
/// suffix delegates to the shared reject grammar; otherwise one of the two
/// message-id keys must follow, and the id is bounded with brackets and a
/// trailing newline stripped.
pub open spec fn spec_cleanup(t: Seq<char>, qid: bool, st: int) -> GOut {
    if !qid && has_prefix(t, st, " warning:"@) {
        GOut::Skip
    } else if has_prefix(t, st, " reject: "@) {
        spec_reject(t, st, RejectReason::Reject)
    } else {
        let key = if has_prefix(t, st, " message-id="@) {
            Some((st + 12, false))
        } else if has_prefix(t, st, " resent-message-id="@) {
            Some((st + 19, true))
        } else {
            None
        };
        match key {
            None => GOut::Fail { e: ParseError::CleanupNoMessageID },
            Some((ms0, resent)) => {
                let e0 = t.len() as int;
                let e1 = if e0 > ms0 && t[e0 - 1] == '\n' {
                    e0 - 1
                } else {
                    e0
                };
                let e2 = if e1 > ms0 && t[e1 - 1] == '>' {
                    e1 - 1
                } else {
                    e1
                };
                let ms = if e2 > ms0 && t[ms0] == '<' {
                    ms0 + 1
                } else {
                    ms0
                };
                GOut::Msg { m: MsgOut::Cleanup { message_id_s: ms, message_id_e: e2, resent } }
            },
        }
    }
}

impl MessageParser for Cleanup {
    fn parse(inner: Inner, start: usize) -> (r: Result<Option<Message>, ParseError>)
        ensures
            gout_matches(
                r,
                inner,
                spec_cleanup(inner.raw@, inner.queue_id_e != 0, start as int),
            ),
    {
        let len = inner.raw.as_str().unicode_len();
        if inner.queue_id_e == 0 && starts_with_at(inner.raw.as_str(), start, " warning:") {
            return Ok(None);
        }
        if starts_with_at(inner.raw.as_str(), start, " reject: ") {
            return Reject::parse(inner, start, RejectReason::Reject);
        }
        let (ms0, resent) = if starts_with_at(inner.raw.as_str(), start, " message-id=") {
            proof {
                reveal_strlit(" message-id=");
            }
            (start + 12, false)
        } else if starts_with_at(inner.raw.as_str(), start, " resent-message-id=") {
            proof {
                reveal_strlit(" resent-message-id=");
            }
            (start + 19, true)
        } else {
            return Err(ParseError::CleanupNoMessageID);
        };
        let mut e = len;
        if e > ms0 && inner.raw.as_str().get_char(e - 1) == '\n' {
            e = e - 1;
        }
        if e > ms0 && inner.raw.as_str().get_char(e - 1) == '>' {
            e = e - 1;
        }
        let ms = if e > ms0 && inner.raw.as_str().get_char(ms0) == '<' {
            ms0 + 1
        } else {
            ms0
        };
        Ok(
            Some(
                Message::Cleanup {
                    m: Cleanup { inner, message_id_s: ms, message_id_e: e, resent },
                },
            ),
        )
    }
}


/// The cleanup grammar fails only with its own checkpoint or with one of
/// the shared reject grammar's.
pub proof fn lemma_cleanup_errors(t: Seq<char>, qid: bool, st: int)
    ensures
        spec_cleanup(t, qid, st) matches GOut::Fail { e } ==> {
            ||| e is CleanupNoMessageID
            ||| e is RejectBadMessage
            ||| e is RejectNoFrom
            ||| e is RejectBadFrom
            ||| e is RejectBadTo
            ||| e is RejectNoProto
            ||| e is RejectBadProto
            ||| e is RejectUnknownProto
            ||| e is RejectNoHelo
            ||| e is RejectBadHelo
        },
{
    crate::reject::lemma_reject_errors(t, st, RejectReason::Reject);
}

} // verus!
