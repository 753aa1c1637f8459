//! The bounce grammar: a non-delivery notification naming the child queue
//! entry created for the bounce message.

use vstd::prelude::*;
use vstd::string::StrSliceExecFns;
use crate::errors::ParseError;
use crate::inner::Inner;
use crate::messages::{gout_matches, GOut, Message, MessageParser, MsgOut};
use crate::scan::{all_uhex, has_prefix, starts_with_at, uhex_range};

verus! {

/// A non-delivery notification record: the rest of the line after the
/// fixed literal is the child queue id.
#[derive(Debug)]
pub struct Bounce {
    pub inner: Inner,
    pub child_queue_id_s: usize,
    pub child_queue_id_e: usize,
}

impl Bounce {
    pub open spec fn wf(&self) -> bool {
        &&& self.inner.wf()
        &&& self.child_queue_id_s <= self.child_queue_id_e <= self.inner.raw@.len()
    }

    /// The queue id of the bounce message that was created.
    pub fn child_queue_id(&self) -> (r: &str)
        requires
            self.wf(),
        ensures
            r@ == self.inner.raw@.subrange(
                self.child_queue_id_s as int,
                self.child_queue_id_e as int,
            ),
    {
        self.inner.raw.as_str().substring_char(self.child_queue_id_s, self.child_queue_id_e)
    }
}

/// What the bounce grammar yields on `t` from cursor `st`: the fixed
/// literal must follow, and everything after it must be uppercase hex.
pub open spec fn spec_bounce(t: Seq<char>, st: int) -> GOut {
    if !has_prefix(t, st, " sender non-delivery notification: "@) {
        GOut::Fail { e: ParseError::BounceBad }
    } else {
        let cs = st + 35;
        if !all_uhex(t, cs, t.len() as int) {
            GOut::Fail { e: ParseError::BounceBadQueueID }
        } else {
            GOut::Msg { m: MsgOut::Bounce { child_s: cs, child_e: t.len() as int } }
        }
    }
}

impl MessageParser for Bounce {
    fn parse(inner: Inner, start: usize) -> (r: Result<Option<Message>, ParseError>)
        ensures
            gout_matches(r, inner, spec_bounce(inner.raw@, start as int)),
    {
        let len = inner.raw.as_str().unicode_len();
        if !starts_with_at(inner.raw.as_str(), start, " sender non-delivery notification: ") {
            return Err(ParseError::BounceBad);
        }
        proof {
            reveal_strlit(" sender non-delivery notification: ");
        }
        let cs = start + 35;
        if !uhex_range(inner.raw.as_str(), cs, len) {
            return Err(ParseError::BounceBadQueueID);
        }
        Ok(
            Some(
                Message::Bounce {
                    m: Bounce { inner, child_queue_id_s: cs, child_queue_id_e: len },
                },
            ),
        )
    }
}


/// The bounce grammar fails only with its own checkpoints.
pub proof fn lemma_bounce_errors(t: Seq<char>, st: int)
    ensures
        spec_bounce(t, st) matches GOut::Fail { e } ==> (e is BounceBad || e is BounceBadQueueID),
{
}

} // verus!
