//! The queue-manager grammar: after the queue id, a line either records
//! the entry's removal, its expiry, or its entry into the active queue
//! with sender, size and recipient count.

use vstd::prelude::*;
use vstd::string::StrSliceExecFns;
use crate::errors::ParseError;
use crate::inner::Inner;
use crate::messages::{gout_matches, GOut, Message, MessageParser, MsgOut};
use crate::scan::{dec_result, find_in, first_in, has_prefix, parse_dec, starts_with_at};

verus! {

/// A message entering the active queue: sender, size in bytes, and the
/// number of recipients.
#[derive(Debug)]
pub struct Qmgr {
    pub inner: Inner,
    pub from_s: usize,
    pub from_e: usize,
    pub size: u64,
    pub nrcpt: u32,
}

/// A queue entry that was removed; the line carries no further fields.
#[derive(Debug)]
pub struct QmgrRemoved {
    pub inner: Inner,
}

/// A queue entry that expired and was returned to its sender.
#[derive(Debug)]
pub struct QmgrExpired {
    pub inner: Inner,
    pub from_s: usize,
    pub from_e: usize,
}

impl Qmgr {
    pub open spec fn wf(&self) -> bool {
        &&& self.inner.wf()
        &&& (self.from_e != 0 ==> self.from_s <= self.from_e <= self.inner.raw@.len())
    }

    /// The envelope sender, when the line carries one.
    pub fn from(&self) -> (r: Option<&str>)
        requires
            self.wf(),
        ensures
            match r {
                Some(f) => self.from_e != 0 && f@ == self.inner.raw@.subrange(
                    self.from_s as int,
                    self.from_e as int,
                ),
                None => self.from_e == 0,
            },
    {
        if self.from_e != 0 {
            Some(self.inner.raw.as_str().substring_char(self.from_s, self.from_e))
        } else {
            None
        }
    }
}

impl QmgrRemoved {
    pub open spec fn wf(&self) -> bool {
        self.inner.wf()
    }
}

impl QmgrExpired {
    pub open spec fn wf(&self) -> bool {
        &&& self.inner.wf()
        &&& (self.from_e != 0 ==> self.from_s <= self.from_e <= self.inner.raw@.len())
    }

    /// The envelope sender, when the line carries one.
    pub fn from(&self) -> (r: Option<&str>)
        requires
            self.wf(),
        ensures
            match r {
                Some(f) => self.from_e != 0 && f@ == self.inner.raw@.subrange(
                    self.from_s as int,
                    self.from_e as int,
                ),
                None => self.from_e == 0,
            },
    {
        if self.from_e != 0 {
            Some(self.inner.raw.as_str().substring_char(self.from_s, self.from_e))
        } else {
            None
        }
    }
}

/// What the queue-manager grammar yields on `t` from cursor `st`.  The
/// three outcomes are mutually exclusive: ` removed` is terminal; after
/// ` from=<addr>` either the expiry tail follows, or `, size=` and
/// `, nrcpt=` must both follow with decimal values and the line must end
/// in the ` (queue active)` marker, whose absence is an error.
pub open spec fn spec_qmgr(t: Seq<char>, st: int) -> GOut {
    if has_prefix(t, st, " removed"@) {
        GOut::Msg { m: MsgOut::QmgrRemoved }
    } else if !has_prefix(t, st, " from=<"@) {
        GOut::Fail { e: ParseError::QmgrNoFrom }
    } else {
        let fs = st + 7;
        match first_in(t, fs, t.len() as int, '>') {
            None => GOut::Fail { e: ParseError::QmgrBadFrom },
            Some(fe) => {
                if has_prefix(t, fe, ">, status=expired, returned to sender"@) {
                    GOut::Msg { m: MsgOut::QmgrExpired { from_s: fs, from_e: fe } }
                } else if !has_prefix(t, fe, ">, size="@) {
                    GOut::Fail { e: ParseError::QmgrNoSize }
                } else {
                    let ss = fe + 8;
                    match first_in(t, ss, t.len() as int, ',') {
                        None => GOut::Fail { e: ParseError::QmgrBadSize },
                        Some(se) => match dec_result(t, ss, se, u64::MAX as int) {
                            None => GOut::Fail { e: ParseError::QmgrSizeNotInt },
                            Some(size) => {
                                if !has_prefix(t, se, ", nrcpt="@) {
                                    GOut::Fail { e: ParseError::QmgrNoNrcpt }
                                } else {
                                    let ns = se + 8;
                                    match first_in(t, ns, t.len() as int, ' ') {
                                        None => GOut::Fail { e: ParseError::QmgrBadNrcpt },
                                        Some(ne) => {
                                            if !has_prefix(t, ne, " (queue active)"@) {
                                                GOut::Fail { e: ParseError::QmgrNotActive }
                                            } else {
                                                match dec_result(t, ns, ne, u32::MAX as int) {
                                                    None => GOut::Fail {
                                                        e: ParseError::QmgrNrcptNotInt,
                                                    },
                                                    Some(nrcpt) => GOut::Msg {
                                                        m: MsgOut::Qmgr {
                                                            from_s: fs,
                                                            from_e: fe,
                                                            size: size as u64,
                                                            nrcpt: nrcpt as u32,
                                                        },
                                                    },
                                                }
                                            }
                                        },
                                    }
                                }
                            },
                        },
                    }
                }
            },
        }
    }
}

impl MessageParser for Qmgr {
    fn parse(inner: Inner, start: usize) -> (r: Result<Option<Message>, ParseError>)
        ensures
            gout_matches(r, inner, spec_qmgr(inner.raw@, start as int)),
    {
        let len = inner.raw.as_str().unicode_len();
        if starts_with_at(inner.raw.as_str(), start, " removed") {
            return Ok(Some(Message::QmgrRemoved { m: QmgrRemoved { inner } }));
        }
        if !starts_with_at(inner.raw.as_str(), start, " from=<") {
            return Err(ParseError::QmgrNoFrom);
        }
        proof {
            reveal_strlit(" from=<");
        }
        let fs = start + 7;
        let fe = match find_in(inner.raw.as_str(), fs, len, '>') {
            None => { return Err(ParseError::QmgrBadFrom) },
            Some(p) => p,
        };
        if starts_with_at(inner.raw.as_str(), fe, ">, status=expired, returned to sender") {
            return Ok(
                Some(
                    Message::QmgrExpired { m: QmgrExpired { inner, from_s: fs, from_e: fe } },
                ),
            );
        }
        if !starts_with_at(inner.raw.as_str(), fe, ">, size=") {
            return Err(ParseError::QmgrNoSize);
        }
        proof {
            reveal_strlit(">, size=");
        }
        let ss = fe + 8;
        let se = match find_in(inner.raw.as_str(), ss, len, ',') {
            None => { return Err(ParseError::QmgrBadSize) },
            Some(p) => p,
        };
        let size = match parse_dec(inner.raw.as_str(), ss, se, u64::MAX) {
            None => { return Err(ParseError::QmgrSizeNotInt) },
            Some(v) => v,
        };
        if !starts_with_at(inner.raw.as_str(), se, ", nrcpt=") {
            return Err(ParseError::QmgrNoNrcpt);
        }
        proof {
            reveal_strlit(", nrcpt=");
        }
        let ns = se + 8;
        let ne = match find_in(inner.raw.as_str(), ns, len, ' ') {
            None => { return Err(ParseError::QmgrBadNrcpt) },
            Some(p) => p,
        };
        if !starts_with_at(inner.raw.as_str(), ne, " (queue active)") {
            return Err(ParseError::QmgrNotActive);
        }
        let nrcpt = match parse_dec(inner.raw.as_str(), ns, ne, u32::MAX as u64) {
            None => { return Err(ParseError::QmgrNrcptNotInt) },
            Some(v) => v as u32,
        };
        Ok(Some(Message::Qmgr { m: Qmgr { inner, from_s: fs, from_e: fe, size, nrcpt } }))
    }
}


/// The queue-manager grammar fails only with its own checkpoints.
pub proof fn lemma_qmgr_errors(t: Seq<char>, st: int)
    ensures
        spec_qmgr(t, st) matches GOut::Fail { e } ==> {
            ||| e is QmgrNoFrom
            ||| e is QmgrBadFrom
            ||| e is QmgrNoSize
            ||| e is QmgrBadSize
            ||| e is QmgrSizeNotInt
            ||| e is QmgrNoNrcpt
            ||| e is QmgrBadNrcpt
            ||| e is QmgrNotActive
            ||| e is QmgrNrcptNotInt
        },
{
}

} // verus!
