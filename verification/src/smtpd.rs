//! The inbound-SMTP-daemon grammar: reject verbs delegate to the shared
//! reject grammar; otherwise a client record, optionally extended with the
//! forwarded-from-secondary queue fields or an authenticated login.

use vstd::prelude::*;
use vstd::string::StrSliceExecFns;
use crate::errors::ParseError;
use crate::inner::Inner;
use crate::messages::{gout_matches, GOut, Message, MessageParser, MsgOut};
use crate::reject::{spec_reject, Reject, RejectReason};
use crate::scan::{find_in, first_in, has_prefix, range_eq, starts_with_at};

verus! {

/// A plain client record of the inbound daemon.
#[derive(Debug)]
pub struct Smtpd {
    pub inner: Inner,
    pub client_s: usize,
    pub client_e: usize,
}

/// A client record that names the queue entry and client it was forwarded
/// from.
#[derive(Debug)]
pub struct SmtpdForward {
    pub smtpd: Smtpd,
    pub orig_queue_id_s: usize,
    pub orig_queue_id_e: usize,
    pub orig_client_s: usize,
    pub orig_client_e: usize,
}

/// The sasl method of an authenticated login; exactly two are recognized.
#[derive(Debug, PartialEq, Eq, Structural, Clone, Copy)]
#[allow(non_camel_case_types)]
pub enum SmtpdMethod {
    PLAIN,
    LOGIN,
}

/// A client record carrying an authenticated login.
#[derive(Debug)]
pub struct SmtpdLogin {
    pub smtpd: Smtpd,
    pub method: SmtpdMethod,
    pub sasl_username_s: usize,
    pub sasl_username_e: usize,
}

impl Smtpd {
    pub open spec fn wf(&self) -> bool {
        &&& self.inner.wf()
        &&& self.client_s <= self.client_e <= self.inner.raw@.len()
    }

    /// The connecting client.
    pub fn client(&self) -> (r: &str)
        requires
            self.wf(),
        ensures
            r@ == self.inner.raw@.subrange(self.client_s as int, self.client_e as int),
    {
        self.inner.raw.as_str().substring_char(self.client_s, self.client_e)
    }
}

impl SmtpdForward {
    pub open spec fn wf(&self) -> bool {
        &&& self.smtpd.wf()
        &&& self.orig_queue_id_s <= self.orig_queue_id_e <= self.smtpd.inner.raw@.len()
        &&& self.orig_client_s <= self.orig_client_e <= self.smtpd.inner.raw@.len()
    }

    /// The connecting client, from the embedded client record.
    pub fn client(&self) -> (r: &str)
        requires
            self.wf(),
        ensures
            r@ == self.smtpd.inner.raw@.subrange(
                self.smtpd.client_s as int,
                self.smtpd.client_e as int,
            ),
    {
        self.smtpd.client()
    }

    /// The queue id this message had on the forwarding instance.
    pub fn orig_queue_id(&self) -> (r: &str)
        requires
            self.wf(),
        ensures
            r@ == self.smtpd.inner.raw@.subrange(
                self.orig_queue_id_s as int,
                self.orig_queue_id_e as int,
            ),
    {
        self.smtpd.inner.raw.as_str().substring_char(self.orig_queue_id_s, self.orig_queue_id_e)
    }

    /// The client as seen by the forwarding instance.
    pub fn orig_client(&self) -> (r: &str)
        requires
            self.wf(),
        ensures
            r@ == self.smtpd.inner.raw@.subrange(
                self.orig_client_s as int,
                self.orig_client_e as int,
            ),
    {
        self.smtpd.inner.raw.as_str().substring_char(self.orig_client_s, self.orig_client_e)
    }
}

impl SmtpdLogin {
    pub open spec fn wf(&self) -> bool {
        &&& self.smtpd.wf()
        &&& self.sasl_username_s <= self.sasl_username_e <= self.smtpd.inner.raw@.len()
    }

    /// The connecting client, from the embedded client record.
    pub fn client(&self) -> (r: &str)
        requires
            self.wf(),
        ensures
            r@ == self.smtpd.inner.raw@.subrange(
                self.smtpd.client_s as int,
                self.smtpd.client_e as int,
            ),
    {
        self.smtpd.client()
    }

    /// The authenticated user name.
    pub fn sasl_username(&self) -> (r: &str)
        requires
            self.wf(),
        ensures
            r@ == self.smtpd.inner.raw@.subrange(
                self.sasl_username_s as int,
                self.sasl_username_e as int,
            ),
    {
        self.smtpd.inner.raw.as_str().substring_char(self.sasl_username_s, self.sasl_username_e)
    }
}

/// What the inbound-daemon grammar yields on `t` from cursor `st`.  A line
/// with no queue id at all is pure connection chatter and is skipped; a
/// verb delegates to the shared reject grammar; otherwise ` client=` must
/// follow, extended by either the forwarded-queue fields or a sasl login.
pub open spec fn spec_smtpd(t: Seq<char>, qid: bool, st: int) -> GOut {
    if !qid {
        GOut::Skip
    } else if has_prefix(t, st, " discard: "@) {
        spec_reject(t, st, RejectReason::Discard)
    } else if has_prefix(t, st, " reject: "@) {
        spec_reject(t, st, RejectReason::Reject)
    } else if has_prefix(t, st, " warn: "@) {
        spec_reject(t, st, RejectReason::Warn)
    } else if !has_prefix(t, st, " client="@) {
        GOut::Fail { e: ParseError::SmtpdNonEndingOrigQueue }
    } else {
        let cs = st + 8;
        match first_in(t, cs, t.len() as int, ',') {
            None => GOut::Msg { m: MsgOut::Smtpd { client_s: cs, client_e: t.len() as int } },
            Some(ce) => {
                if has_prefix(t, ce, ", orig_queue_id="@) {
                    let oqs = ce + 16;
                    match first_in(t, oqs, t.len() as int, ',') {
                        None => GOut::Fail { e: ParseError::SmtpdNonEndingOrigQueue },
                        Some(oqe) => {
                            if !has_prefix(t, oqe, ", orig_client="@) {
                                GOut::Fail { e: ParseError::SmtpdNoOrigClient }
                            } else {
                                GOut::Msg {
                                    m: MsgOut::SmtpdForward {
                                        client_s: cs,
                                        client_e: ce,
                                        orig_queue_id_s: oqs,
                                        orig_queue_id_e: oqe,
                                        orig_client_s: oqe + 14,
                                        orig_client_e: t.len() as int,
                                    },
                                }
                            }
                        },
                    }
                } else if has_prefix(t, ce, ", sasl_method="@) {
                    let mms = ce + 14;
                    match first_in(t, mms, t.len() as int, ',') {
                        None => GOut::Fail { e: ParseError::SmtpdNonEndingMethod },
                        Some(mme) => {
                            let seg = t.subrange(mms, mme);
                            if seg != "LOGIN"@ && seg != "PLAIN"@ {
                                GOut::Fail { e: ParseError::SmtpdUnknownMethod }
                            } else {
                                let method = if seg == "LOGIN"@ {
                                    SmtpdMethod::LOGIN
                                } else {
                                    SmtpdMethod::PLAIN
                                };
                                if !has_prefix(t, mme, ", sasl_username="@) {
                                    GOut::Fail { e: ParseError::SmtpdNoUsername }
                                } else {
                                    GOut::Msg {
                                        m: MsgOut::SmtpdLogin {
                                            client_s: cs,
                                            client_e: ce,
                                            method,
                                            user_s: mme + 16,
                                            user_e: t.len() as int,
                                        },
                                    }
                                }
                            }
                        },
                    }
                } else {
                    GOut::Fail { e: ParseError::SmtpdUnknownFormat }
                }
            },
        }
    }
}

impl MessageParser for Smtpd {
    fn parse(inner: Inner, start: usize) -> (r: Result<Option<Message>, ParseError>)
        ensures
            gout_matches(r, inner, spec_smtpd(inner.raw@, inner.queue_id_e != 0, start as int)),
    {
        if inner.queue_id_e == 0 {
            return Ok(None);
        }
        if starts_with_at(inner.raw.as_str(), start, " discard: ") {
            return Reject::parse(inner, start, RejectReason::Discard);
        }
        if starts_with_at(inner.raw.as_str(), start, " reject: ") {
            return Reject::parse(inner, start, RejectReason::Reject);
        }
        if starts_with_at(inner.raw.as_str(), start, " warn: ") {
            return Reject::parse(inner, start, RejectReason::Warn);
        }
        if !starts_with_at(inner.raw.as_str(), start, " client=") {
            return Err(ParseError::SmtpdNonEndingOrigQueue);
        }
        proof {
            reveal_strlit(" client=");
        }
        let len = inner.raw.as_str().unicode_len();
        let cs = start + 8;
        let ce = match find_in(inner.raw.as_str(), cs, len, ',') {
            None => {
                return Ok(
                    Some(Message::Smtpd { m: Smtpd { inner, client_s: cs, client_e: len } }),
                );
            },
            Some(p) => p,
        };
        if starts_with_at(inner.raw.as_str(), ce, ", orig_queue_id=") {
            proof {
                reveal_strlit(", orig_queue_id=");
            }
            let oqs = ce + 16;
            let oqe = match find_in(inner.raw.as_str(), oqs, len, ',') {
                None => { return Err(ParseError::SmtpdNonEndingOrigQueue) },
                Some(p) => p,
            };
            if !starts_with_at(inner.raw.as_str(), oqe, ", orig_client=") {
                return Err(ParseError::SmtpdNoOrigClient);
            }
            proof {
                reveal_strlit(", orig_client=");
            }
            let ocs = oqe + 14;
            return Ok(
                Some(
                    Message::SmtpdForward {
                        m: SmtpdForward {
                            smtpd: Smtpd { inner, client_s: cs, client_e: ce },
                            orig_queue_id_s: oqs,
                            orig_queue_id_e: oqe,
                            orig_client_s: ocs,
                            orig_client_e: len,
                        },
                    },
                ),
            );
        }
        if starts_with_at(inner.raw.as_str(), ce, ", sasl_method=") {
            proof {
                reveal_strlit(", sasl_method=");
            }
            let mms = ce + 14;
            let mme = match find_in(inner.raw.as_str(), mms, len, ',') {
                None => { return Err(ParseError::SmtpdNonEndingMethod) },
                Some(p) => p,
            };
            let method = if range_eq(inner.raw.as_str(), mms, mme, "LOGIN") {
                SmtpdMethod::LOGIN
            } else if range_eq(inner.raw.as_str(), mms, mme, "PLAIN") {
                proof {
                    reveal_strlit("LOGIN");
                    reveal_strlit("PLAIN");
                }
                SmtpdMethod::PLAIN
            } else {
                return Err(ParseError::SmtpdUnknownMethod);
            };
            if !starts_with_at(inner.raw.as_str(), mme, ", sasl_username=") {
                return Err(ParseError::SmtpdNoUsername);
            }
            proof {
                reveal_strlit(", sasl_username=");
            }
            let us = mme + 16;
            return Ok(
                Some(
                    Message::SmtpdLogin {
                        m: SmtpdLogin {
                            smtpd: Smtpd { inner, client_s: cs, client_e: ce },
                            method,
                            sasl_username_s: us,
                            sasl_username_e: len,
                        },
                    },
                ),
            );
        }
        Err(ParseError::SmtpdUnknownFormat)
    }
}


/// The inbound-daemon grammar fails only with its own checkpoints or with
/// one of the shared reject grammar's.
pub proof fn lemma_smtpd_errors(t: Seq<char>, qid: bool, st: int)
    ensures
        spec_smtpd(t, qid, st) matches GOut::Fail { e } ==> {
            ||| e is SmtpdNonEndingOrigQueue
            ||| e is SmtpdNoOrigClient
            ||| e is SmtpdNonEndingMethod
            ||| e is SmtpdUnknownMethod
            ||| e is SmtpdNoUsername
            ||| e is SmtpdUnknownFormat
            ||| e is RejectBadMessage
            ||| e is RejectNoFrom
            ||| e is RejectBadFrom
            ||| e is RejectBadTo
            ||| e is RejectNoProto
            ||| e is RejectBadProto
            ||| e is RejectUnknownProto
            ||| e is RejectNoHelo
            ||| e is RejectBadHelo
        },
{
    crate::reject::lemma_reject_errors(t, st, RejectReason::Discard);
    crate::reject::lemma_reject_errors(t, st, RejectReason::Reject);
    crate::reject::lemma_reject_errors(t, st, RejectReason::Warn);
}

} // verus!
