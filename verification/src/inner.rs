//! The preamble decoder: the subsystem-agnostic prefix of every log line
//! (date, host, service tag, process kind, pid, optional queue id), decoded
//! before any subsystem grammar runs.

use vstd::prelude::*;
use vstd::string::StrSliceExecFns;
use crate::config::ParserConfig;
use crate::errors::ParseError;
use crate::scan::{first_in, has_prefix, dec_result, all_uhex, find_in, starts_with_at, range_eq, parse_dec, uhex_range};

verus! {

/// Width of the fixed-position date field at the head of every line.
pub const DATE_LEN: usize = 15;

/// The closed set of subsystem tags a line can carry.
#[derive(Debug, PartialEq, Eq, Structural, Clone, Copy)]
pub enum Process {
    Anvil,
    Bounce,
    Cleanup,
    Local,
    Pickup,
    Pipe,
    Qmgr,
    Smtp,
    Smtpd,
}

/// Which subsystem tag a process-kind keyword names, if any.
pub open spec fn spec_process(seg: Seq<char>) -> Option<Process> {
    if seg == "anvil"@ {
        Some(Process::Anvil)
    } else if seg == "bounce"@ {
        Some(Process::Bounce)
    } else if seg == "cleanup"@ {
        Some(Process::Cleanup)
    } else if seg == "local"@ {
        Some(Process::Local)
    } else if seg == "pickup"@ {
        Some(Process::Pickup)
    } else if seg == "pipe"@ {
        Some(Process::Pipe)
    } else if seg == "qmgr"@ {
        Some(Process::Qmgr)
    } else if seg == "smtp"@ {
        Some(Process::Smtp)
    } else if seg == "smtpd"@ {
        Some(Process::Smtpd)
    } else if seg == "smtpd.local"@ {
        Some(Process::Smtpd)
    } else {
        None
    }
}

/// The line matches a configured noise prefix right after the host field.
pub open spec fn noise_hit(noise: Seq<Seq<char>>, t: Seq<char>, pos: int) -> bool {
    exists|k: int| 0 <= k < noise.len() && has_prefix(t, pos, noise[k])
}

/// The outcome of decoding a line's preamble: a named failure, a silent
/// skip, or the decoded field offsets plus the cursor at which the
/// subsystem grammar resumes.
pub enum PreOut {
    Fail { e: ParseError },
    Skip,
    Done {
        host_e: int,
        queue_e: int,
        process: Process,
        pid: u32,
        queue_id_s: int,
        queue_id_e: int,
        start: int,
    },
}

/// What decoding the preamble of `t` under noise set `noise` yields.
///
/// Checkpoints in order: the fixed date field must fit; a space must end
/// the host; a configured noise prefix causes a silent skip; a colon must
/// bound the service/process segment; a slash must end the service tag; a
/// bracket must end the process keyword; the keyword must be a known
/// subsystem tag; the bracketed pid must be a decimal integer followed by
/// `]: `.  Finally an optional queue id is taken exactly when the text up
/// to the next colon is all uppercase hex; otherwise no queue id is
/// recorded, which is not an error.
pub open spec fn spec_preamble(noise: Seq<Seq<char>>, t: Seq<char>) -> PreOut {
    if t.len() < DATE_LEN as int + 2 {
        PreOut::Fail { e: ParseError::DateTooShort }
    } else {
        match first_in(t, DATE_LEN as int + 1, t.len() as int, ' ') {
            None => PreOut::Fail { e: ParseError::NonEndingHost },
            Some(host_e) => {
                let qs = host_e + 1;
                if noise_hit(noise, t, qs) {
                    PreOut::Skip
                } else {
                    match first_in(t, qs, t.len() as int, ':') {
                        None => PreOut::Fail { e: ParseError::MissingProcess },
                        Some(_colon) => match first_in(t, qs, t.len() as int, '/') {
                            None => PreOut::Fail { e: ParseError::NonEndingQueue },
                            Some(queue_e) => match first_in(
                                t,
                                queue_e + 1,
                                t.len() as int,
                                '[',
                            ) {
                                None => PreOut::Fail { e: ParseError::NonEndingProcess },
                                Some(br) => match spec_process(t.subrange(queue_e + 1, br)) {
                                    None => PreOut::Fail { e: ParseError::UnknownProcess },
                                    Some(process) => match first_in(t, br + 1, t.len() as int, ']') {
                                        None => PreOut::Fail { e: ParseError::BadProcessID },
                                        Some(rb) => if !has_prefix(t, rb, "]: "@) {
                                            PreOut::Fail { e: ParseError::BadProcessID }
                                        } else {
                                            match dec_result(t, br + 1, rb, u32::MAX as int) {
                                                None => PreOut::Fail { e: ParseError::BadProcessID },
                                                Some(pid) => {
                                                    let qis = rb + 3;
                                                    match first_in(t, qis, t.len() as int, ':') {
                                                        Some(qc) => if all_uhex(t, qis, qc) {
                                                            PreOut::Done {
                                                                host_e,
                                                                queue_e,
                                                                process,
                                                                pid: pid as u32,
                                                                queue_id_s: qis,
                                                                queue_id_e: qc,
                                                                start: qc + 1,
                                                            }
                                                        } else {
                                                            PreOut::Done {
                                                                host_e,
                                                                queue_e,
                                                                process,
                                                                pid: pid as u32,
                                                                queue_id_s: qis,
                                                                queue_id_e: 0,
                                                                start: qis - 1,
                                                            }
                                                        },
                                                        None => PreOut::Done {
                                                            host_e,
                                                            queue_e,
                                                            process,
                                                            pid: pid as u32,
                                                            queue_id_s: qis,
                                                            queue_id_e: 0,
                                                            start: qis - 1,
                                                        },
                                                    }
                                                },
                                            }
                                        },
                                    },
                                },
                            },
                        },
                    }
                }
            },
        }
    }
}

/// The decoded preamble of one line.  It owns the line's text; every other
/// field is a byte offset into it.  An absent queue id is encoded as
/// `queue_id_e == 0`, never as a range pointing into real data.
#[derive(Debug)]
pub struct Inner {
    pub raw: String,
    pub host_e: usize,
    pub queue_s: usize,
    pub queue_e: usize,
    pub process: Process,
    pub pid: u32,
    pub queue_id_s: usize,
    pub queue_id_e: usize,
}

impl Inner {
    /// Every stored offset is a valid position of the raw line and each
    /// range runs forward.
    pub open spec fn wf(&self) -> bool {
        &&& DATE_LEN as int + 1 <= self.host_e <= self.raw@.len()
        &&& self.queue_s == self.host_e + 1
        &&& self.queue_s <= self.queue_e <= self.raw@.len()
        &&& (self.queue_id_e != 0 ==> self.queue_id_s <= self.queue_id_e <= self.raw@.len())
    }

    /// The fixed-position date field.
    pub fn date(&self) -> (r: &str)
        requires
            self.wf(),
        ensures
            r@ == self.raw@.subrange(0, DATE_LEN as int),
    {
        self.raw.as_str().substring_char(0, DATE_LEN)
    }

    /// The host that emitted the line.
    pub fn host(&self) -> (r: &str)
        requires
            self.wf(),
        ensures
            r@ == self.raw@.subrange(DATE_LEN as int + 1, self.host_e as int),
    {
        self.raw.as_str().substring_char(DATE_LEN + 1, self.host_e)
    }

    /// The service tag (the logging facility name before the slash).
    pub fn queue(&self) -> (r: &str)
        requires
            self.wf(),
        ensures
            r@ == self.raw@.subrange(self.queue_s as int, self.queue_e as int),
    {
        self.raw.as_str().substring_char(self.queue_s, self.queue_e)
    }

    /// The queue id, when the line carries one.
    pub fn queue_id(&self) -> (r: Option<&str>)
        requires
            self.wf(),
        ensures
            match r {
                Some(q) => self.queue_id_e != 0 && q@ == self.raw@.subrange(
                    self.queue_id_s as int,
                    self.queue_id_e as int,
                ),
                None => self.queue_id_e == 0,
            },
    {
        if self.queue_id_e != 0 {
            Some(self.raw.as_str().substring_char(self.queue_id_s, self.queue_id_e))
        } else {
            None
        }
    }

    /// Decode the preamble of `s`: the relation between the result and
    /// `spec_preamble` is exact, field by field.
    #[verifier::loop_isolation(false)]
    pub fn parse(config: &ParserConfig, s: String) -> (r: Result<
        Option<(Inner, usize)>,
        ParseError,
    >)
        ensures
            pre_matches(r, config.noise(), s@),
    {
        let t_len = s.as_str().unicode_len();
        if t_len < DATE_LEN + 2 {
            return Err(ParseError::DateTooShort);
        }
        let host_e = match find_in(s.as_str(), DATE_LEN + 1, t_len, ' ') {
            None => { return Err(ParseError::NonEndingHost) },
            Some(p) => p,
        };
        let qs = host_e + 1;
        let mut k: usize = 0;
        while k < config.process_noise.len()
            invariant
                qs <= s@.len(),
                forall|j: int| 0 <= j < k ==> !has_prefix(s@, qs as int, config.noise()[j]),
            decreases config.process_noise.len() - k,
        {
            let prog: &String = &config.process_noise[k];
            if starts_with_at(s.as_str(), qs, prog.as_str()) {
                proof {
                    assert(config.noise()[k as int] == config.process_noise@[k as int].deep_view());
                    assert(has_prefix(s@, qs as int, config.noise()[k as int]));
                    assert(noise_hit(config.noise(), s@, qs as int));
                    assert(s@.len() >= DATE_LEN as int + 2);
                }
                return Ok(None);
            }
            k = k + 1;
        }
        assert(!noise_hit(config.noise(), s@, qs as int));
        if find_in(s.as_str(), qs, t_len, ':').is_none() {
            return Err(ParseError::MissingProcess);
        }
        let queue_e = match find_in(s.as_str(), qs, t_len, '/') {
            None => { return Err(ParseError::NonEndingQueue) },
            Some(p) => p,
        };
        let br = match find_in(s.as_str(), queue_e + 1, t_len, '[') {
            None => { return Err(ParseError::NonEndingProcess) },
            Some(p) => p,
        };
        let ps = queue_e + 1;
        let process = if range_eq(s.as_str(), ps, br, "anvil") {
            Process::Anvil
        } else if range_eq(s.as_str(), ps, br, "bounce") {
            Process::Bounce
        } else if range_eq(s.as_str(), ps, br, "cleanup") {
            Process::Cleanup
        } else if range_eq(s.as_str(), ps, br, "local") {
            Process::Local
        } else if range_eq(s.as_str(), ps, br, "pickup") {
            Process::Pickup
        } else if range_eq(s.as_str(), ps, br, "pipe") {
            Process::Pipe
        } else if range_eq(s.as_str(), ps, br, "qmgr") {
            Process::Qmgr
        } else if range_eq(s.as_str(), ps, br, "smtp") {
            Process::Smtp
        } else if range_eq(s.as_str(), ps, br, "smtpd") {
            Process::Smtpd
        } else if range_eq(s.as_str(), ps, br, "smtpd.local") {
            Process::Smtpd
        } else {
            return Err(ParseError::UnknownProcess);
        };
        let rb = match find_in(s.as_str(), br + 1, t_len, ']') {
            None => { return Err(ParseError::BadProcessID) },
            Some(p) => p,
        };
        if !starts_with_at(s.as_str(), rb, "]: ") {
            return Err(ParseError::BadProcessID);
        }
        let pid = match parse_dec(s.as_str(), br + 1, rb, u32::MAX as u64) {
            None => { return Err(ParseError::BadProcessID) },
            Some(v) => v as u32,
        };
        proof {
            reveal_strlit("]: ");
        }
        let qis = rb + 3;
        let (queue_id_e, start) = match find_in(s.as_str(), qis, t_len, ':') {
            Some(qc) => if uhex_range(s.as_str(), qis, qc) {
                (qc, qc + 1)
            } else {
                (0, qis - 1)
            },
            None => (0, qis - 1),
        };
        Ok(
            Some(
                (
                    Inner {
                        raw: s,
                        host_e,
                        queue_s: qs,
                        queue_e,
                        process,
                        pid,
                        queue_id_s: qis,
                        queue_id_e,
                    },
                    start,
                ),
            ),
        )
    }
}

/// The queue-id start offset of a decoded preamble outcome.
pub open spec fn queue_id_s_of(pre: PreOut) -> int {
    match pre {
        PreOut::Done { queue_id_s, .. } => queue_id_s,
        _ => -1,
    }
}

/// The queue-id end offset of a decoded preamble outcome.
pub open spec fn queue_id_e_of(pre: PreOut) -> int {
    match pre {
        PreOut::Done { queue_id_e, .. } => queue_id_e,
        _ => -1,
    }
}

/// Absence of a queue id is not an error: when the preamble decodes and
/// the segment before the next colon holds any character outside the
/// uppercase-hex alphabet, no queue id is recorded — the outcome is still
/// a decoded preamble, never a failure.
pub proof fn lemma_nonhex_queue_id(noise: Seq<Seq<char>>, t: Seq<char>, qc: int)
    requires
        spec_preamble(noise, t) is Done,
        first_in(t, queue_id_s_of(spec_preamble(noise, t)), t.len() as int, ':') == Some(qc),
        !all_uhex(t, queue_id_s_of(spec_preamble(noise, t)), qc),
    ensures
        queue_id_e_of(spec_preamble(noise, t)) == 0,
{
}

/// A recorded queue id is exactly the uppercase-hex segment bounded by
/// the next colon.
pub proof fn lemma_queue_id_present_is_hex(noise: Seq<Seq<char>>, t: Seq<char>)
    requires
        spec_preamble(noise, t) is Done,
        queue_id_e_of(spec_preamble(noise, t)) != 0,
    ensures
        first_in(t, queue_id_s_of(spec_preamble(noise, t)), t.len() as int, ':') == Some(
            queue_id_e_of(spec_preamble(noise, t)),
        ),
        all_uhex(
            t,
            queue_id_s_of(spec_preamble(noise, t)),
            queue_id_e_of(spec_preamble(noise, t)),
        ),
{
}

/// Exact correspondence between the result of `Inner::parse` and the
/// preamble specification.
pub open spec fn pre_matches(
    r: Result<Option<(Inner, usize)>, ParseError>,
    noise: Seq<Seq<char>>,
    t: Seq<char>,
) -> bool {
    match spec_preamble(noise, t) {
        PreOut::Fail { e } => r == Err::<Option<(Inner, usize)>, ParseError>(e),
        PreOut::Skip => r matches Ok(None),
        PreOut::Done { host_e, queue_e, process, pid, queue_id_s, queue_id_e, start } => {
            &&& r matches Ok(Some((inner, st)))
            &&& inner.raw@ == t
            &&& inner.host_e == host_e
            &&& inner.queue_s == host_e + 1
            &&& inner.queue_e == queue_e
            &&& inner.process == process
            &&& inner.pid == pid
            &&& inner.queue_id_s == queue_id_s
            &&& inner.queue_id_e == queue_id_e
            &&& st == start
            &&& st <= inner.raw@.len()
            &&& inner.wf()
        },
    }
}

} // verus!
