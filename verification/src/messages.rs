//! The tagged union of decoded records, the ghost mirror of a grammar's
//! outcome, and the exact correspondence between the two.

use vstd::prelude::*;
use crate::errors::ParseError;
use crate::inner::Inner;
use crate::bounce::Bounce;
use crate::cleanup::Cleanup;
use crate::forward::{Forward, ForwardError};
use crate::pickup::Pickup;
use crate::qmgr::{Qmgr, QmgrExpired, QmgrRemoved};
use crate::reject::{Reject, RejectProto, RejectReason};
use crate::smtpd::{Smtpd, SmtpdForward, SmtpdLogin, SmtpdMethod};

verus! {

/// One decoded line: a variant per subsystem outcome, each embedding the
/// Preamble and offsets into the same raw line.
#[derive(Debug)]
pub enum Message {
    Bounce { m: Bounce },
    Cleanup { m: Cleanup },
    Pickup { m: Pickup },
    Qmgr { m: Qmgr },
    QmgrRemoved { m: QmgrRemoved },
    QmgrExpired { m: QmgrExpired },
    Forward { m: Forward },
    ForwardError { m: ForwardError },
    Reject { m: Reject },
    Smtpd { m: Smtpd },
    SmtpdForward { m: SmtpdForward },
    SmtpdLogin { m: SmtpdLogin },
}

impl Message {
    /// Whatever variant was decoded, its stored offsets are valid positions
    /// of the raw line.
    pub open spec fn wf(&self) -> bool {
        match self {
            Message::Bounce { m } => m.wf(),
            Message::Cleanup { m } => m.wf(),
            Message::Pickup { m } => m.wf(),
            Message::Qmgr { m } => m.wf(),
            Message::QmgrRemoved { m } => m.wf(),
            Message::QmgrExpired { m } => m.wf(),
            Message::Forward { m } => m.wf(),
            Message::ForwardError { m } => m.wf(),
            Message::Reject { m } => m.wf(),
            Message::Smtpd { m } => m.wf(),
            Message::SmtpdForward { m } => m.wf(),
            Message::SmtpdLogin { m } => m.wf(),
        }
    }
}

/// The ghost mirror of a decoded record: the same field offsets, free of
/// the owning line.
pub enum MsgOut {
    Bounce { child_s: int, child_e: int },
    Cleanup { message_id_s: int, message_id_e: int, resent: bool },
    Pickup { uid: u32, from_s: int, from_e: int },
    Qmgr { from_s: int, from_e: int, size: u64, nrcpt: u32 },
    QmgrRemoved,
    QmgrExpired { from_s: int, from_e: int },
    Forward {
        to_s: int,
        to_e: int,
        orig_to_s: int,
        orig_to_e: int,
        relay_s: int,
        relay_e: int,
        dsn0: u8,
        dsn1: u8,
        dsn2: u8,
        status_s: int,
        status_e: int,
        child_s: int,
        child_e: int,
    },
    ForwardError { host_s: int, host_e: int, message_s: int, message_e: int },
    Reject {
        reason: RejectReason,
        message_s: int,
        message_e: int,
        from_s: int,
        from_e: int,
        to_s: int,
        to_e: int,
        proto: RejectProto,
        helo_s: int,
        helo_e: int,
        explanation_s: int,
        explanation_e: int,
    },
    Smtpd { client_s: int, client_e: int },
    SmtpdForward {
        client_s: int,
        client_e: int,
        orig_queue_id_s: int,
        orig_queue_id_e: int,
        orig_client_s: int,
        orig_client_e: int,
    },
    SmtpdLogin { client_s: int, client_e: int, method: SmtpdMethod, user_s: int, user_e: int },
}

/// The ghost mirror of a grammar's whole outcome.
pub enum GOut {
    Fail { e: ParseError },
    Skip,
    Msg { m: MsgOut },
}

/// The preamble embedded in a decoded message.
pub open spec fn msg_inner(msg: Message) -> Inner {
    match msg {
        Message::Bounce { m } => m.inner,
        Message::Cleanup { m } => m.inner,
        Message::Pickup { m } => m.inner,
        Message::Qmgr { m } => m.inner,
        Message::QmgrRemoved { m } => m.inner,
        Message::QmgrExpired { m } => m.inner,
        Message::Forward { m } => m.inner,
        Message::ForwardError { m } => m.inner,
        Message::Reject { m } => m.inner,
        Message::Smtpd { m } => m.inner,
        Message::SmtpdForward { m } => m.smtpd.inner,
        Message::SmtpdLogin { m } => m.smtpd.inner,
    }
}

/// Two preambles carry the same decoded fields over the same text.
pub open spec fn same_inner(a: Inner, b: Inner) -> bool {
    &&& a.raw@ == b.raw@
    &&& a.host_e == b.host_e
    &&& a.queue_s == b.queue_s
    &&& a.queue_e == b.queue_e
    &&& a.process == b.process
    &&& a.pid == b.pid
    &&& a.queue_id_s == b.queue_id_s
    &&& a.queue_id_e == b.queue_id_e
}

/// The decoded message `msg` embeds the preamble `inner` and carries
/// exactly the offsets of the mirror `m`.
pub open spec fn msg_is(msg: Message, inner: Inner, m: MsgOut) -> bool {
    match m {
        MsgOut::Bounce { child_s, child_e } => {
            &&& msg matches Message::Bounce { m: b }
            &&& same_inner(b.inner, inner)
            &&& b.child_queue_id_s == child_s
            &&& b.child_queue_id_e == child_e
        },
        MsgOut::Cleanup { message_id_s, message_id_e, resent } => {
            &&& msg matches Message::Cleanup { m: c }
            &&& same_inner(c.inner, inner)
            &&& c.message_id_s == message_id_s
            &&& c.message_id_e == message_id_e
            &&& c.resent == resent
        },
        MsgOut::Pickup { uid, from_s, from_e } => {
            &&& msg matches Message::Pickup { m: p }
            &&& same_inner(p.inner, inner)
            &&& p.uid == uid
            &&& p.from_s == from_s
            &&& p.from_e == from_e
        },
        MsgOut::Qmgr { from_s, from_e, size, nrcpt } => {
            &&& msg matches Message::Qmgr { m: q }
            &&& same_inner(q.inner, inner)
            &&& q.from_s == from_s
            &&& q.from_e == from_e
            &&& q.size == size
            &&& q.nrcpt == nrcpt
        },
        MsgOut::QmgrRemoved => {
            &&& msg matches Message::QmgrRemoved { m: q }
            &&& same_inner(q.inner, inner)
        },
        MsgOut::QmgrExpired { from_s, from_e } => {
            &&& msg matches Message::QmgrExpired { m: q }
            &&& same_inner(q.inner, inner)
            &&& q.from_s == from_s
            &&& q.from_e == from_e
        },
        MsgOut::Forward {
            to_s,
            to_e,
            orig_to_s,
            orig_to_e,
            relay_s,
            relay_e,
            dsn0,
            dsn1,
            dsn2,
            status_s,
            status_e,
            child_s,
            child_e,
        } => {
            &&& msg matches Message::Forward { m: f }
            &&& same_inner(f.inner, inner)
            &&& f.to_s == to_s
            &&& f.to_e == to_e
            &&& f.orig_to_s == orig_to_s
            &&& f.orig_to_e == orig_to_e
            &&& f.relay_s == relay_s
            &&& f.relay_e == relay_e
            &&& f.dsn@ == seq![dsn0, dsn1, dsn2]
            &&& f.status_s == status_s
            &&& f.status_e == status_e
            &&& f.child_queue_id_s == child_s
            &&& f.child_queue_id_e == child_e
        },
        MsgOut::ForwardError { host_s, host_e, message_s, message_e } => {
            &&& msg matches Message::ForwardError { m: f }
            &&& same_inner(f.inner, inner)
            &&& f.host_s == host_s
            &&& f.host_e == host_e
            &&& f.message_s == message_s
            &&& f.message_e == message_e
        },
        MsgOut::Reject {
            reason,
            message_s,
            message_e,
            from_s,
            from_e,
            to_s,
            to_e,
            proto,
            helo_s,
            helo_e,
            explanation_s,
            explanation_e,
        } => {
            &&& msg matches Message::Reject { m: rj }
            &&& same_inner(rj.inner, inner)
            &&& rj.reason == reason
            &&& rj.message_s == message_s
            &&& rj.message_e == message_e
            &&& rj.from_s == from_s
            &&& rj.from_e == from_e
            &&& rj.to_s == to_s
            &&& rj.to_e == to_e
            &&& rj.proto == proto
            &&& rj.helo_s == helo_s
            &&& rj.helo_e == helo_e
            &&& rj.explanation_s == explanation_s
            &&& rj.explanation_e == explanation_e
        },
        MsgOut::Smtpd { client_s, client_e } => {
            &&& msg matches Message::Smtpd { m: sm }
            &&& same_inner(sm.inner, inner)
            &&& sm.client_s == client_s
            &&& sm.client_e == client_e
        },
        MsgOut::SmtpdForward {
            client_s,
            client_e,
            orig_queue_id_s,
            orig_queue_id_e,
            orig_client_s,
            orig_client_e,
        } => {
            &&& msg matches Message::SmtpdForward { m: sf }
            &&& same_inner(sf.smtpd.inner, inner)
            &&& sf.smtpd.client_s == client_s
            &&& sf.smtpd.client_e == client_e
            &&& sf.orig_queue_id_s == orig_queue_id_s
            &&& sf.orig_queue_id_e == orig_queue_id_e
            &&& sf.orig_client_s == orig_client_s
            &&& sf.orig_client_e == orig_client_e
        },
        MsgOut::SmtpdLogin { client_s, client_e, method, user_s, user_e } => {
            &&& msg matches Message::SmtpdLogin { m: sl }
            &&& same_inner(sl.smtpd.inner, inner)
            &&& sl.smtpd.client_s == client_s
            &&& sl.smtpd.client_e == client_e
            &&& sl.method == method
            &&& sl.sasl_username_s == user_s
            &&& sl.sasl_username_e == user_e
        },
    }
}

/// Exact correspondence between an executed grammar's result over `inner`
/// and the mirrored outcome `g`.
pub open spec fn gout_matches(r: Result<Option<Message>, ParseError>, inner: Inner, g: GOut) -> bool {
    match g {
        GOut::Fail { e } => r == Err::<Option<Message>, ParseError>(e),
        GOut::Skip => r matches Ok(None),
        GOut::Msg { m } => {
            &&& r matches Ok(Some(msg))
            &&& msg_is(msg, inner, m)
            &&& msg.wf()
        },
    }
}

/// Every subsystem grammar: it consumes the decoded preamble and the
/// cursor at which its own text begins.
pub trait MessageParser {
    fn parse(inner: Inner, start: usize) -> (r: Result<Option<Message>, ParseError>)
        requires
            inner.wf(),
            start <= inner.raw@.len(),
    ;
}

} // verus!
