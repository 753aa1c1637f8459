//! The delivery/forward grammar: either a delivery failure (`host ...
//! said: ...`) or a delivery attempt record with recipient, relay, a
//! three-component DSN and a free-text status, from which a child queue id
//! is extracted when the status follows the recognized template.

use vstd::prelude::*;
use vstd::string::StrSliceExecFns;
use crate::errors::ParseError;
use crate::inner::Inner;
use crate::messages::{gout_matches, GOut, Message, MessageParser, MsgOut};
use crate::scan::{dec_result, find_in, first_in, has_prefix, parse_dec, starts_with_at};

verus! {

/// A delivery attempt record.  An absent optional field is a zero-length
/// range at offset 0.
#[derive(Debug)]
pub struct Forward {
    pub inner: Inner,
    pub to_s: usize,
    pub to_e: usize,
    pub orig_to_s: usize,
    pub orig_to_e: usize,
    pub relay_s: usize,
    pub relay_e: usize,
    pub dsn: [u8; 3],
    pub status_s: usize,
    pub status_e: usize,
    pub child_queue_id_s: usize,
    pub child_queue_id_e: usize,
}

/// A delivery failure: the remote host and its verbatim answer.
#[derive(Debug)]
pub struct ForwardError {
    pub inner: Inner,
    pub host_s: usize,
    pub host_e: usize,
    pub message_s: usize,
    pub message_e: usize,
}

impl Forward {
    pub open spec fn wf(&self) -> bool {
        &&& self.inner.wf()
        &&& self.to_s <= self.to_e <= self.inner.raw@.len()
        &&& (self.orig_to_e != 0 ==> self.orig_to_s <= self.orig_to_e <= self.inner.raw@.len())
        &&& self.relay_s <= self.relay_e <= self.inner.raw@.len()
        &&& self.status_s <= self.status_e <= self.inner.raw@.len()
        &&& (self.child_queue_id_e != 0 ==> self.child_queue_id_s <= self.child_queue_id_e
            <= self.inner.raw@.len())
    }

    /// The recipient address.
    pub fn to(&self) -> (r: &str)
        requires
            self.wf(),
        ensures
            r@ == self.inner.raw@.subrange(self.to_s as int, self.to_e as int),
    {
        self.inner.raw.as_str().substring_char(self.to_s, self.to_e)
    }

    /// The recipient before address rewriting, when the line records one.
    pub fn orig_to(&self) -> (r: Option<&str>)
        requires
            self.wf(),
        ensures
            match r {
                Some(f) => self.orig_to_e != 0 && f@ == self.inner.raw@.subrange(
                    self.orig_to_s as int,
                    self.orig_to_e as int,
                ),
                None => self.orig_to_e == 0,
            },
    {
        if self.orig_to_e != 0 {
            Some(self.inner.raw.as_str().substring_char(self.orig_to_s, self.orig_to_e))
        } else {
            None
        }
    }

    /// The relay: the bracketed IP literal when the relay token carries
    /// one, else the whole token.
    pub fn relay(&self) -> (r: &str)
        requires
            self.wf(),
        ensures
            r@ == self.inner.raw@.subrange(self.relay_s as int, self.relay_e as int),
    {
        self.inner.raw.as_str().substring_char(self.relay_s, self.relay_e)
    }

    /// The free-text status.
    pub fn status(&self) -> (r: &str)
        requires
            self.wf(),
        ensures
            r@ == self.inner.raw@.subrange(self.status_s as int, self.status_e as int),
    {
        self.inner.raw.as_str().substring_char(self.status_s, self.status_e)
    }

    /// The queue id the message was re-queued under, when the status
    /// follows the recognized template.
    pub fn child_queue(&self) -> (r: Option<&str>)
        requires
            self.wf(),
        ensures
            match r {
                Some(f) => self.child_queue_id_e != 0 && f@ == self.inner.raw@.subrange(
                    self.child_queue_id_s as int,
                    self.child_queue_id_e as int,
                ),
                None => self.child_queue_id_e == 0,
            },
    {
        if self.child_queue_id_e != 0 {
            Some(
                self.inner.raw.as_str().substring_char(
                    self.child_queue_id_s,
                    self.child_queue_id_e,
                ),
            )
        } else {
            None
        }
    }
}

impl ForwardError {
    pub open spec fn wf(&self) -> bool {
        &&& self.inner.wf()
        &&& self.host_s <= self.host_e <= self.inner.raw@.len()
        &&& self.message_s <= self.message_e <= self.inner.raw@.len()
    }

    /// The remote host that answered.
    pub fn host(&self) -> (r: &str)
        requires
            self.wf(),
        ensures
            r@ == self.inner.raw@.subrange(self.host_s as int, self.host_e as int),
    {
        self.inner.raw.as_str().substring_char(self.host_s, self.host_e)
    }

    /// The remote host's verbatim answer.
    pub fn message(&self) -> (r: &str)
        requires
            self.wf(),
        ensures
            r@ == self.inner.raw@.subrange(self.message_s as int, self.message_e as int),
    {
        self.inner.raw.as_str().substring_char(self.message_s, self.message_e)
    }
}

/// What the delivery/forward grammar yields on `t` from cursor `st`.  A
/// line with no queue id is connection chatter and is skipped; ` host `
/// keys the failure shape; otherwise the attempt record must follow.
pub open spec fn spec_forward(t: Seq<char>, qid: bool, st: int) -> GOut {
    if !qid {
        GOut::Skip
    } else if has_prefix(t, st, " host "@) {
        let hs = st + 6;
        match first_in(t, hs, t.len() as int, ' ') {
            None => GOut::Fail { e: ParseError::ForwardBadHost },
            Some(he) => {
                if !has_prefix(t, he, " said: "@) {
                    GOut::Fail { e: ParseError::ForwardNoMessage }
                } else {
                    GOut::Msg {
                        m: MsgOut::ForwardError {
                            host_s: hs,
                            host_e: he,
                            message_s: he + 7,
                            message_e: t.len() as int,
                        },
                    }
                }
            },
        }
    } else if !has_prefix(t, st, " to=<"@) {
        GOut::Fail { e: ParseError::ForwardNoTo }
    } else {
        let ts = st + 5;
        match first_in(t, ts, t.len() as int, '>') {
            None => GOut::Fail { e: ParseError::ForwardBadTo },
            Some(te) => spec_fwd_orig(t, ts, te),
        }
    }
}

/// The attempt record after the recipient: the optional `orig_to` field.
pub open spec fn spec_fwd_orig(t: Seq<char>, ts: int, te: int) -> GOut {
    let cur0 = te + 1;
    if has_prefix(t, cur0, ", orig_to=<"@) {
        match first_in(t, cur0 + 11, t.len() as int, '>') {
            None => GOut::Fail { e: ParseError::ForwardBadOrigTo },
            Some(oe) => spec_fwd_relay(t, ts, te, cur0 + 11, oe, oe + 1),
        }
    } else {
        spec_fwd_relay(t, ts, te, 0, 0, cur0)
    }
}

/// The relay field: bounded by the next comma; when the token embeds a
/// bracketed IP literal, only that literal is retained.
pub open spec fn spec_fwd_relay(t: Seq<char>, ts: int, te: int, os: int, oe: int, cur: int) -> GOut {
    if !has_prefix(t, cur, ", relay="@) {
        GOut::Fail { e: ParseError::ForwardNoRelay }
    } else {
        let rs0 = cur + 8;
        match first_in(t, rs0, t.len() as int, ',') {
            None => GOut::Fail { e: ParseError::ForwardBadRelay },
            Some(rc) => {
                let bracketed = match first_in(t, rs0, rc, '[') {
                    None => None,
                    Some(p) => if p == rs0 {
                        None
                    } else {
                        match first_in(t, p, rc, ']') {
                            None => None,
                            Some(q) => Some((p + 1, q)),
                        }
                    },
                };
                match bracketed {
                    Some((rs, re)) => spec_fwd_delays(t, ts, te, os, oe, rs, re, rc),
                    None => spec_fwd_delays(t, ts, te, os, oe, rs0, rc, rc),
                }
            },
        }
    }
}

/// The optional `conn_use` field and the two delay fields, each bounded by
/// the next comma.
pub open spec fn spec_fwd_delays(
    t: Seq<char>,
    ts: int,
    te: int,
    os: int,
    oe: int,
    rs: int,
    re: int,
    cur: int,
) -> GOut {
    let after_conn = if has_prefix(t, cur, ", conn_use="@) {
        first_in(t, cur + 1, t.len() as int, ',')
    } else {
        Some(cur)
    };
    match after_conn {
        None => GOut::Fail { e: ParseError::ForwardBadConn },
        Some(c1) => match first_in(t, c1 + 1, t.len() as int, ',') {
            None => GOut::Fail { e: ParseError::ForwardNoDelay },
            Some(c2) => match first_in(t, c2 + 1, t.len() as int, ',') {
                None => GOut::Fail { e: ParseError::ForwardNoDelays },
                Some(c3) => spec_fwd_dsn(t, ts, te, os, oe, rs, re, c3),
            },
        },
    }
}

/// The DSN: bounded by the next comma, it must split on dots into exactly
/// three components, each a decimal eight-bit integer.
pub open spec fn spec_fwd_dsn(
    t: Seq<char>,
    ts: int,
    te: int,
    os: int,
    oe: int,
    rs: int,
    re: int,
    cur: int,
) -> GOut {
    if !has_prefix(t, cur, ", dsn="@) {
        GOut::Fail { e: ParseError::ForwardNoDSN }
    } else {
        let ds = cur + 6;
        match first_in(t, ds, t.len() as int, ',') {
            None => GOut::Fail { e: ParseError::ForwardBadDSN },
            Some(de) => match first_in(t, ds, de, '.') {
                None => GOut::Fail { e: ParseError::ForwardDSNBadLen },
                Some(p1) => match first_in(t, p1 + 1, de, '.') {
                    None => GOut::Fail { e: ParseError::ForwardDSNBadLen },
                    Some(p2) => if first_in(t, p2 + 1, de, '.') is Some {
                        GOut::Fail { e: ParseError::ForwardDSNBadLen }
                    } else {
                        match (
                            dec_result(t, ds, p1, 255),
                            dec_result(t, p1 + 1, p2, 255),
                            dec_result(t, p2 + 1, de, 255),
                        ) {
                            (Some(a), Some(b), Some(c)) => spec_fwd_status(
                                t,
                                ts,
                                te,
                                os,
                                oe,
                                rs,
                                re,
                                a as u8,
                                b as u8,
                                c as u8,
                                de,
                            ),
                            _ => GOut::Fail { e: ParseError::PickupDSNNotInt },
                        }
                    },
                },
            },
        }
    }
}

/// The free-text status, and the child queue id extracted by fixed-offset
/// substring when the status follows the recognized `queued as` template.
pub open spec fn spec_fwd_status(
    t: Seq<char>,
    ts: int,
    te: int,
    os: int,
    oe: int,
    rs: int,
    re: int,
    a: u8,
    b: u8,
    c: u8,
    cur: int,
) -> GOut {
    if !has_prefix(t, cur, ", status="@) {
        GOut::Fail { e: ParseError::ForwardNoStatus }
    } else {
        let ss = cur + 9;
        let child = has_prefix(t, ss, "sent (250 2.0.0 Ok: queued as "@) && t[t.len() - 1]
            == ')';
        GOut::Msg {
            m: MsgOut::Forward {
                to_s: ts,
                to_e: te,
                orig_to_s: os,
                orig_to_e: oe,
                relay_s: rs,
                relay_e: re,
                dsn0: a,
                dsn1: b,
                dsn2: c,
                status_s: ss,
                status_e: t.len() as int,
                child_s: if child {
                    ss + 30
                } else {
                    0
                },
                child_e: if child {
                    t.len() - 1
                } else {
                    0
                },
            },
        }
    }
}

impl MessageParser for Forward {
    #[verifier::rlimit(80)]
    fn parse(inner: Inner, start: usize) -> (r: Result<Option<Message>, ParseError>)
        ensures
            gout_matches(
                r,
                inner,
                spec_forward(inner.raw@, inner.queue_id_e != 0, start as int),
            ),
    {
        if inner.queue_id_e == 0 {
            return Ok(None);
        }
        let len = inner.raw.as_str().unicode_len();
        if starts_with_at(inner.raw.as_str(), start, " host ") {
            proof {
                reveal_strlit(" host ");
            }
            let hs = start + 6;
            let he = match find_in(inner.raw.as_str(), hs, len, ' ') {
                None => { return Err(ParseError::ForwardBadHost) },
                Some(p) => p,
            };
            if !starts_with_at(inner.raw.as_str(), he, " said: ") {
                return Err(ParseError::ForwardNoMessage);
            }
            proof {
                reveal_strlit(" said: ");
            }
            return Ok(
                Some(
                    Message::ForwardError {
                        m: ForwardError {
                            inner,
                            host_s: hs,
                            host_e: he,
                            message_s: he + 7,
                            message_e: len,
                        },
                    },
                ),
            );
        }
        if !starts_with_at(inner.raw.as_str(), start, " to=<") {
            return Err(ParseError::ForwardNoTo);
        }
        proof {
            reveal_strlit(" to=<");
        }
        let ts = start + 5;
        let te = match find_in(inner.raw.as_str(), ts, len, '>') {
            None => { return Err(ParseError::ForwardBadTo) },
            Some(p) => p,
        };
        let cur0 = te + 1;
        let (os, oe, cur) = if starts_with_at(inner.raw.as_str(), cur0, ", orig_to=<") {
            proof {
                reveal_strlit(", orig_to=<");
            }
            match find_in(inner.raw.as_str(), cur0 + 11, len, '>') {
                None => { return Err(ParseError::ForwardBadOrigTo) },
                Some(p) => (cur0 + 11, p, p + 1),
            }
        } else {
            (0, 0, cur0)
        };
        if !starts_with_at(inner.raw.as_str(), cur, ", relay=") {
            return Err(ParseError::ForwardNoRelay);
        }
        proof {
            reveal_strlit(", relay=");
        }
        let rs0 = cur + 8;
        let rc = match find_in(inner.raw.as_str(), rs0, len, ',') {
            None => { return Err(ParseError::ForwardBadRelay) },
            Some(p) => p,
        };
        let (rs, re) = match find_in(inner.raw.as_str(), rs0, rc, '[') {
            None => (rs0, rc),
            Some(p) => if p == rs0 {
                (rs0, rc)
            } else {
                match find_in(inner.raw.as_str(), p, rc, ']') {
                    None => (rs0, rc),
                    Some(q) => (p + 1, q),
                }
            },
        };
        let c1 = if starts_with_at(inner.raw.as_str(), rc, ", conn_use=") {
            match find_in(inner.raw.as_str(), rc + 1, len, ',') {
                None => { return Err(ParseError::ForwardBadConn) },
                Some(p) => p,
            }
        } else {
            rc
        };
        let c2 = match find_in(inner.raw.as_str(), c1 + 1, len, ',') {
            None => { return Err(ParseError::ForwardNoDelay) },
            Some(p) => p,
        };
        let c3 = match find_in(inner.raw.as_str(), c2 + 1, len, ',') {
            None => { return Err(ParseError::ForwardNoDelays) },
            Some(p) => p,
        };
        if !starts_with_at(inner.raw.as_str(), c3, ", dsn=") {
            return Err(ParseError::ForwardNoDSN);
        }
        proof {
            reveal_strlit(", dsn=");
        }
        let ds = c3 + 6;
        let de = match find_in(inner.raw.as_str(), ds, len, ',') {
            None => { return Err(ParseError::ForwardBadDSN) },
            Some(p) => p,
        };
        let p1 = match find_in(inner.raw.as_str(), ds, de, '.') {
            None => { return Err(ParseError::ForwardDSNBadLen) },
            Some(p) => p,
        };
        let p2 = match find_in(inner.raw.as_str(), p1 + 1, de, '.') {
            None => { return Err(ParseError::ForwardDSNBadLen) },
            Some(p) => p,
        };
        if find_in(inner.raw.as_str(), p2 + 1, de, '.').is_some() {
            return Err(ParseError::ForwardDSNBadLen);
        }
        let a = match parse_dec(inner.raw.as_str(), ds, p1, 255) {
            None => { return Err(ParseError::PickupDSNNotInt) },
            Some(v) => v as u8,
        };
        let b = match parse_dec(inner.raw.as_str(), p1 + 1, p2, 255) {
            None => { return Err(ParseError::PickupDSNNotInt) },
            Some(v) => v as u8,
        };
        let c = match parse_dec(inner.raw.as_str(), p2 + 1, de, 255) {
            None => { return Err(ParseError::PickupDSNNotInt) },
            Some(v) => v as u8,
        };
        if !starts_with_at(inner.raw.as_str(), de, ", status=") {
            return Err(ParseError::ForwardNoStatus);
        }
        proof {
            reveal_strlit(", status=");
        }
        let ss = de + 9;
        let child = starts_with_at(inner.raw.as_str(), ss, "sent (250 2.0.0 Ok: queued as ")
            && inner.raw.as_str().get_char(len - 1) == ')';
        proof {
            reveal_strlit("sent (250 2.0.0 Ok: queued as ");
            if child {
                let gi = ss as int + 29;
                assert(inner.raw@.subrange(ss as int, ss as int + 30)[29] == inner.raw@[gi]);
            }
        }
        let (child_s, child_e) = if child {
            (ss + 30, len - 1)
        } else {
            (0, 0)
        };
        Ok(
            Some(
                Message::Forward {
                    m: Forward {
                        inner,
                        to_s: ts,
                        to_e: te,
                        orig_to_s: os,
                        orig_to_e: oe,
                        relay_s: rs,
                        relay_e: re,
                        dsn: [a, b, c],
                        status_s: ss,
                        status_e: len,
                        child_queue_id_s: child_s,
                        child_queue_id_e: child_e,
                    },
                },
            ),
        )
    }
}


/// The delivery/forward grammar fails only with its own checkpoints.
pub proof fn lemma_forward_errors(t: Seq<char>, qid: bool, st: int)
    ensures
        spec_forward(t, qid, st) matches GOut::Fail { e } ==> {
            ||| e is ForwardBadHost
            ||| e is ForwardNoMessage
            ||| e is ForwardNoTo
            ||| e is ForwardBadTo
            ||| e is ForwardBadOrigTo
            ||| e is ForwardNoRelay
            ||| e is ForwardBadRelay
            ||| e is ForwardBadConn
            ||| e is ForwardNoDelay
            ||| e is ForwardNoDelays
            ||| e is ForwardNoDSN
            ||| e is ForwardBadDSN
            ||| e is ForwardDSNBadLen
            ||| e is PickupDSNNotInt
            ||| e is ForwardNoStatus
        },
{
}

} // verus!
