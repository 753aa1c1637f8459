//! The pickup grammar: a message handed in locally, carrying the unix uid
//! of the submitter and the envelope sender address.

use vstd::prelude::*;
use vstd::string::StrSliceExecFns;
use crate::errors::ParseError;
use crate::inner::Inner;
use crate::messages::{gout_matches, GOut, Message, MessageParser, MsgOut};
use crate::scan::{dec_result, find_in, first_in, has_prefix, parse_dec, starts_with_at};

verus! {

/// A locally submitted message: the submitter's uid and the sender
/// address, with angle brackets and a trailing newline stripped.
#[derive(Debug)]
pub struct Pickup {
    pub inner: Inner,
    pub uid: u32,
    pub from_s: usize,
    pub from_e: usize,
}

impl Pickup {
    pub open spec fn wf(&self) -> bool {
        &&& self.inner.wf()
        &&& self.from_s <= self.from_e <= self.inner.raw@.len()
    }

    /// The envelope sender address.
    pub fn from(&self) -> (r: &str)
        requires
            self.wf(),
        ensures
            r@ == self.inner.raw@.subrange(self.from_s as int, self.from_e as int),
    {
        self.inner.raw.as_str().substring_char(self.from_s, self.from_e)
    }
}

/// What the pickup grammar yields on `t` from cursor `st`: ` uid=` bounds
/// a decimal uid up to a space, then `from=` introduces the address.  An
/// angle-bracketed and a bare address are accepted identically; a trailing
/// newline and a trailing `>` are stripped when bounding the address.
pub open spec fn spec_pickup(t: Seq<char>, st: int) -> GOut {
    if !has_prefix(t, st, " uid="@) {
        GOut::Fail { e: ParseError::PickupBadUID }
    } else {
        match first_in(t, st + 5, t.len() as int, ' ') {
            None => GOut::Fail { e: ParseError::PickupBadUID },
            Some(sp) => match dec_result(t, st + 5, sp, u32::MAX as int) {
                None => GOut::Fail { e: ParseError::PickupBadUID },
                Some(uid) => {
                    let f = sp + 1;
                    if !has_prefix(t, f, "from="@) {
                        GOut::Fail { e: ParseError::PickupBadFrom }
                    } else {
                        let bracket = f + 5 < t.len() && t[f + 5] == '<';
                        let from_s = if bracket {
                            f + 6
                        } else {
                            f + 5
                        };
                        let e0 = t.len() as int;
                        let e1 = if t[e0 - 1] == '\n' {
                            e0 - 1
                        } else {
                            e0
                        };
                        let e2 = if t[e1 - 1] == '>' {
                            e1 - 1
                        } else {
                            e1
                        };
                        GOut::Msg { m: MsgOut::Pickup { uid: uid as u32, from_s, from_e: e2 } }
                    }
                },
            },
        }
    }
}

impl MessageParser for Pickup {
    fn parse(inner: Inner, start: usize) -> (r: Result<Option<Message>, ParseError>)
        ensures
            gout_matches(r, inner, spec_pickup(inner.raw@, start as int)),
    {
        let len = inner.raw.as_str().unicode_len();
        if !starts_with_at(inner.raw.as_str(), start, " uid=") {
            return Err(ParseError::PickupBadUID);
        }
        proof {
            reveal_strlit(" uid=");
        }
        let us = start + 5;
        let sp = match find_in(inner.raw.as_str(), us, len, ' ') {
            None => { return Err(ParseError::PickupBadUID) },
            Some(p) => p,
        };
        let uid = match parse_dec(inner.raw.as_str(), us, sp, u32::MAX as u64) {
            None => { return Err(ParseError::PickupBadUID) },
            Some(v) => v as u32,
        };
        let f = sp + 1;
        if !starts_with_at(inner.raw.as_str(), f, "from=") {
            return Err(ParseError::PickupBadFrom);
        }
        proof {
            reveal_strlit("from=");
        }
        let bracket = f + 5 < len && inner.raw.as_str().get_char(f + 5) == '<';
        let from_s = if bracket {
            f + 6
        } else {
            f + 5
        };
        let mut e = len;
        if inner.raw.as_str().get_char(e - 1) == '\n' {
            e = e - 1;
        }
        if inner.raw.as_str().get_char(e - 1) == '>' {
            e = e - 1;
        }
        proof {
            assert(inner.raw@.subrange(f as int, f as int + 5)[4] == inner.raw@[f as int + 4]);
            assert(inner.raw@[f as int + 4] == '=');
        }
        Ok(Some(Message::Pickup { m: Pickup { inner, uid, from_s, from_e: e } }))
    }
}


/// The pickup grammar fails only with its own checkpoints.
pub proof fn lemma_pickup_errors(t: Seq<char>, st: int)
    ensures
        spec_pickup(t, st) matches GOut::Fail { e } ==> (e is PickupBadUID || e is PickupBadFrom),
{
}

} // verus!
