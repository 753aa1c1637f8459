//! The process dispatcher: one line goes through the preamble decoder and
//! then through the grammar of the subsystem that produced it.

use vstd::prelude::*;
use crate::bounce::{spec_bounce, Bounce};
use crate::cleanup::{spec_cleanup, Cleanup};
use crate::config::ParserConfig;
use crate::errors::ParseError;
use crate::forward::{spec_forward, Forward};
use crate::inner::{noise_hit, spec_preamble, Inner, PreOut, Process, DATE_LEN};
use crate::messages::{msg_inner, msg_is, GOut, Message, MessageParser};
use crate::pickup::{spec_pickup, Pickup};
use crate::qmgr::{spec_qmgr, Qmgr};
use crate::scan::first_in;
use crate::smtpd::{spec_smtpd, Smtpd};

verus! {

/// The grammar that each subsystem tag selects.  A recognized tag that
/// carries no grammar of its own (the connection-rate tracker) resolves to
/// a silent skip.
pub open spec fn spec_dispatch(process: Process, t: Seq<char>, qid: bool, st: int) -> GOut {
    match process {
        Process::Anvil => GOut::Skip,
        Process::Bounce => spec_bounce(t, st),
        Process::Pickup => spec_pickup(t, st),
        Process::Pipe => spec_forward(t, qid, st),
        Process::Smtp => spec_forward(t, qid, st),
        Process::Local => spec_forward(t, qid, st),
        Process::Smtpd => spec_smtpd(t, qid, st),
        Process::Cleanup => spec_cleanup(t, qid, st),
        Process::Qmgr => spec_qmgr(t, st),
    }
}

/// What decoding the whole line yields: the preamble's outcome, composed
/// with the selected subsystem grammar.
pub open spec fn spec_line(noise: Seq<Seq<char>>, t: Seq<char>) -> GOut {
    match spec_preamble(noise, t) {
        PreOut::Fail { e } => GOut::Fail { e },
        PreOut::Skip => GOut::Skip,
        PreOut::Done { process, queue_id_e, start, .. } => spec_dispatch(
            process,
            t,
            queue_id_e != 0,
            start,
        ),
    }
}

/// The embedded preamble of a decoded message carries exactly the fields
/// the preamble specification names, over the line's own text.
pub open spec fn inner_fields(
    inner: Inner,
    t: Seq<char>,
    host_e: int,
    queue_e: int,
    process: Process,
    pid: u32,
    queue_id_s: int,
    queue_id_e: int,
) -> bool {
    &&& inner.raw@ == t
    &&& inner.host_e == host_e
    &&& inner.queue_s == host_e + 1
    &&& inner.queue_e == queue_e
    &&& inner.process == process
    &&& inner.pid == pid
    &&& inner.queue_id_s == queue_id_s
    &&& inner.queue_id_e == queue_id_e
    &&& inner.wf()
}

/// Exact correspondence between the result of `parse_line` and the line
/// specification: the same failure, the same skip, or a well-formed
/// message whose embedded preamble and whose own offsets are the ones the
/// specification names.
pub open spec fn line_matches(
    r: Result<Option<Message>, ParseError>,
    noise: Seq<Seq<char>>,
    t: Seq<char>,
) -> bool {
    match spec_preamble(noise, t) {
        PreOut::Fail { e } => r == Err::<Option<Message>, ParseError>(e),
        PreOut::Skip => r matches Ok(None),
        PreOut::Done { host_e, queue_e, process, pid, queue_id_s, queue_id_e, start } => {
            match spec_dispatch(process, t, queue_id_e != 0, start) {
                GOut::Fail { e } => r == Err::<Option<Message>, ParseError>(e),
                GOut::Skip => r matches Ok(None),
                GOut::Msg { m } => {
                    &&& r matches Ok(Some(msg))
                    &&& msg.wf()
                    &&& msg_is(msg, msg_inner(msg), m)
                    &&& inner_fields(
                        msg_inner(msg),
                        t,
                        host_e,
                        queue_e,
                        process,
                        pid,
                        queue_id_s,
                        queue_id_e,
                    )
                },
            }
        },
    }
}

/// Decode one line under the given configuration.  The outcome is exactly
/// one of three things: `Ok(None)` for a line that is out of scope,
/// `Err(kind)` naming the violated grammar checkpoint, or the decoded
/// message.
pub fn parse_line(raw: String, conf: &ParserConfig) -> (r: Result<Option<Message>, ParseError>)
    ensures
        line_matches(r, conf.noise(), raw@),
{
    let (inner, start) = match Inner::parse(conf, raw) {
        Err(error) => { return Err(error) },
        Ok(None) => { return Ok(None) },
        Ok(Some((x, y))) => (x, y),
    };
    match inner.process {
        Process::Anvil => Ok(None),
        Process::Bounce => Bounce::parse(inner, start),
        Process::Pickup => Pickup::parse(inner, start),
        Process::Pipe => Forward::parse(inner, start),
        Process::Smtp => Forward::parse(inner, start),
        Process::Local => Forward::parse(inner, start),
        Process::Smtpd => Smtpd::parse(inner, start),
        Process::Cleanup => Cleanup::parse(inner, start),
        Process::Qmgr => Qmgr::parse(inner, start),
    }
}

/// Decoding is a pure function: the same line under the same noise set
/// always yields the same outcome, whatever else happened before.
pub proof fn lemma_decode_pure(
    noise1: Seq<Seq<char>>,
    noise2: Seq<Seq<char>>,
    t1: Seq<char>,
    t2: Seq<char>,
)
    requires
        noise1 == noise2,
        t1 == t2,
    ensures
        spec_line(noise1, t1) == spec_line(noise2, t2),
{
}

/// The checkpoint errors the preamble itself can raise.
pub open spec fn preamble_error(e: ParseError) -> bool {
    ||| e is DateTooShort
    ||| e is NonEndingHost
    ||| e is MissingProcess
    ||| e is NonEndingQueue
    ||| e is NonEndingProcess
    ||| e is UnknownProcess
    ||| e is BadProcessID
}

/// The checkpoint errors of the shared reject grammar.
pub open spec fn reject_error(e: ParseError) -> bool {
    ||| e is RejectBadMessage
    ||| e is RejectNoFrom
    ||| e is RejectBadFrom
    ||| e is RejectBadTo
    ||| e is RejectNoProto
    ||| e is RejectBadProto
    ||| e is RejectUnknownProto
    ||| e is RejectNoHelo
    ||| e is RejectBadHelo
}

/// The checkpoint errors each subsystem's grammar can raise.
pub open spec fn subsystem_error(process: Process, e: ParseError) -> bool {
    match process {
        Process::Anvil => false,
        Process::Bounce => e is BounceBad || e is BounceBadQueueID,
        Process::Pickup => e is PickupBadUID || e is PickupBadFrom,
        Process::Pipe | Process::Smtp | Process::Local => {
            ||| e is ForwardBadHost
            ||| e is ForwardNoMessage
            ||| e is ForwardNoTo
            ||| e is ForwardBadTo
            ||| e is ForwardBadOrigTo
            ||| e is ForwardNoRelay
            ||| e is ForwardBadRelay
            ||| e is ForwardBadConn
            ||| e is ForwardNoDelay
            ||| e is ForwardNoDelays
            ||| e is ForwardNoDSN
            ||| e is ForwardBadDSN
            ||| e is ForwardDSNBadLen
            ||| e is PickupDSNNotInt
            ||| e is ForwardNoStatus
        },
        Process::Smtpd => {
            ||| e is SmtpdNonEndingOrigQueue
            ||| e is SmtpdNoOrigClient
            ||| e is SmtpdNonEndingMethod
            ||| e is SmtpdUnknownMethod
            ||| e is SmtpdNoUsername
            ||| e is SmtpdUnknownFormat
            ||| reject_error(e)
        },
        Process::Cleanup => e is CleanupNoMessageID || reject_error(e),
        Process::Qmgr => {
            ||| e is QmgrNoFrom
            ||| e is QmgrBadFrom
            ||| e is QmgrNoSize
            ||| e is QmgrBadSize
            ||| e is QmgrSizeNotInt
            ||| e is QmgrNoNrcpt
            ||| e is QmgrBadNrcpt
            ||| e is QmgrNotActive
            ||| e is QmgrNrcptNotInt
        },
    }
}

/// Every failure is attributable to one named cause at one checkpoint: a
/// decoding error is either one of the preamble's own checkpoints, or a
/// checkpoint of exactly the subsystem grammar that the decoded process
/// kind selected — never another subsystem's error, never a generic
/// fallback.
pub proof fn lemma_error_attribution(noise: Seq<Seq<char>>, t: Seq<char>)
    ensures
        spec_line(noise, t) matches GOut::Fail { e } ==> (match spec_preamble(noise, t) {
            PreOut::Fail { e: pe } => e == pe && preamble_error(e),
            PreOut::Skip => false,
            PreOut::Done { process, .. } => subsystem_error(process, e),
        }),
{
    match spec_preamble(noise, t) {
        PreOut::Done { process, queue_id_e, start, .. } => {
            let qid = queue_id_e != 0;
            crate::bounce::lemma_bounce_errors(t, start);
            crate::pickup::lemma_pickup_errors(t, start);
            crate::qmgr::lemma_qmgr_errors(t, start);
            crate::forward::lemma_forward_errors(t, qid, start);
            crate::cleanup::lemma_cleanup_errors(t, qid, start);
            crate::smtpd::lemma_smtpd_errors(t, qid, start);
        },
        _ => {},
    }
}

/// "Unknown process kind" names only the process-kind keyword: when the
/// whole decode fails with it, the failure came from the preamble's
/// keyword checkpoint — no subsystem grammar, and in particular no
/// queue-id segment, ever yields it.
pub proof fn lemma_unknown_process_only_keyword(noise: Seq<Seq<char>>, t: Seq<char>)
    ensures
        spec_line(noise, t) == (GOut::Fail { e: ParseError::UnknownProcess })
            ==> spec_preamble(noise, t) == (PreOut::Fail { e: ParseError::UnknownProcess }),
{
    lemma_error_attribution(noise, t);
}

/// Noise filtering happens before grammar dispatch: once the host field is
/// bounded, a configured noise prefix skips the line, whatever the rest of
/// the line holds.
pub proof fn lemma_noise_skips(noise: Seq<Seq<char>>, t: Seq<char>, host_e: int)
    requires
        t.len() >= DATE_LEN as int + 2,
        first_in(t, DATE_LEN as int + 1, t.len() as int, ' ') == Some(host_e),
        noise_hit(noise, t, host_e + 1),
    ensures
        spec_line(noise, t) == GOut::Skip,
{
}

} // verus!
