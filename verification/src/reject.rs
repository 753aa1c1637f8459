//! The reject grammar, shared by the inbound SMTP daemon and the cleanup
//! stage for discard/reject/warn records.

use vstd::prelude::*;
use vstd::string::StrSliceExecFns;
use crate::errors::ParseError;
use crate::inner::Inner;
use crate::messages::{gout_matches, GOut, Message, MsgOut};
use crate::scan::{find_in, first_in, has_prefix, range_eq, starts_with_at};

verus! {

/// Which verb introduced the record.
#[derive(Debug, PartialEq, Eq, Structural, Clone, Copy)]
pub enum RejectReason {
    Reject,
    Discard,
    Warn,
}

/// The protocol token of the rejected transaction; exactly two are
/// recognized.
#[derive(Debug, PartialEq, Eq, Structural, Clone, Copy)]
#[allow(non_camel_case_types)]
pub enum RejectProto {
    SMTP,
    ESMTP,
}

/// A discarded, rejected or warned-about transaction: the free-text
/// message, the envelope sender, an optional recipient, the protocol, the
/// helo token and an optional trailing explanation.
#[derive(Debug)]
pub struct Reject {
    pub inner: Inner,
    pub reason: RejectReason,
    pub message_s: usize,
    pub message_e: usize,
    pub from_s: usize,
    pub from_e: usize,
    pub to_s: usize,
    pub to_e: usize,
    pub proto: RejectProto,
    pub helo_s: usize,
    pub helo_e: usize,
    pub explanation_s: usize,
    pub explanation_e: usize,
}

impl Reject {
    pub open spec fn wf(&self) -> bool {
        &&& self.inner.wf()
        &&& self.message_s <= self.message_e <= self.inner.raw@.len()
        &&& self.from_s <= self.from_e <= self.inner.raw@.len()
        &&& (self.to_e != 0 ==> self.to_s <= self.to_e <= self.inner.raw@.len())
        &&& self.helo_s <= self.helo_e <= self.inner.raw@.len()
        &&& (self.explanation_e != 0 ==> self.explanation_s <= self.explanation_e
            <= self.inner.raw@.len())
    }

    /// The free-text message between the verb and the semicolon.
    pub fn message(&self) -> (r: &str)
        requires
            self.wf(),
        ensures
            r@ == self.inner.raw@.subrange(self.message_s as int, self.message_e as int),
    {
        self.inner.raw.as_str().substring_char(self.message_s, self.message_e)
    }

    /// The envelope sender.
    pub fn from(&self) -> (r: &str)
        requires
            self.wf(),
        ensures
            r@ == self.inner.raw@.subrange(self.from_s as int, self.from_e as int),
    {
        self.inner.raw.as_str().substring_char(self.from_s, self.from_e)
    }

    /// The recipient, when the record names one.
    pub fn to(&self) -> (r: Option<&str>)
        requires
            self.wf(),
        ensures
            match r {
                Some(f) => self.to_e != 0 && f@ == self.inner.raw@.subrange(
                    self.to_s as int,
                    self.to_e as int,
                ),
                None => self.to_e == 0,
            },
    {
        if self.to_e != 0 {
            Some(self.inner.raw.as_str().substring_char(self.to_s, self.to_e))
        } else {
            None
        }
    }

    /// The helo token.
    pub fn helo(&self) -> (r: &str)
        requires
            self.wf(),
        ensures
            r@ == self.inner.raw@.subrange(self.helo_s as int, self.helo_e as int),
    {
        self.inner.raw.as_str().substring_char(self.helo_s, self.helo_e)
    }

    /// The trailing explanation, when the record carries one.
    pub fn explanation(&self) -> (r: Option<&str>)
        requires
            self.wf(),
        ensures
            match r {
                Some(f) => self.explanation_e != 0 && f@ == self.inner.raw@.subrange(
                    self.explanation_s as int,
                    self.explanation_e as int,
                ),
                None => self.explanation_e == 0,
            },
    {
        if self.explanation_e != 0 {
            Some(self.inner.raw.as_str().substring_char(self.explanation_s, self.explanation_e))
        } else {
            None
        }
    }
}

/// How many characters the verb and its surrounding delimiters occupy:
/// the message starts that far after the cursor.
pub open spec fn spec_verb_len(reason: RejectReason) -> int {
    match reason {
        RejectReason::Discard => 10,
        RejectReason::Reject => 9,
        RejectReason::Warn => 7,
    }
}

/// What the shared reject grammar yields on `t` from cursor `st` for the
/// given verb: a semicolon bounds the message, `; from=<` the sender, an
/// optional `> to=<` the recipient, `> proto=` one of exactly two protocol
/// tokens, ` helo=<` the helo token, and an optional `>: ` a trailing
/// explanation.
pub open spec fn spec_reject(t: Seq<char>, st: int, reason: RejectReason) -> GOut {
    let ms = st + spec_verb_len(reason);
    match first_in(t, ms, t.len() as int, ';') {
        None => GOut::Fail { e: ParseError::RejectBadMessage },
        Some(me) => {
            if !has_prefix(t, me, "; from=<"@) {
                GOut::Fail { e: ParseError::RejectNoFrom }
            } else {
                let fs = me + 8;
                match first_in(t, fs, t.len() as int, '>') {
                    None => GOut::Fail { e: ParseError::RejectBadFrom },
                    Some(fe) => spec_reject_tail(t, st, reason, ms, me, fs, fe),
                }
            }
        },
    }
}

/// The tail of the reject grammar, from the optional recipient onward.
pub open spec fn spec_reject_tail(
    t: Seq<char>,
    st: int,
    reason: RejectReason,
    ms: int,
    me: int,
    fs: int,
    fe: int,
) -> GOut {
    let with_to = has_prefix(t, fe, "> to=<"@);
    let to_res = if with_to {
        first_in(t, fe + 6, t.len() as int, '>')
    } else {
        Some(fe)
    };
    match to_res {
        None => GOut::Fail { e: ParseError::RejectBadTo },
        Some(end) => {
            if !has_prefix(t, end, "> proto="@) {
                GOut::Fail { e: ParseError::RejectNoProto }
            } else {
                let ps = end + 8;
                match first_in(t, ps, t.len() as int, ' ') {
                    None => GOut::Fail { e: ParseError::RejectBadProto },
                    Some(pe) => {
                        let seg = t.subrange(ps, pe);
                        if seg != "SMTP"@ && seg != "ESMTP"@ {
                            GOut::Fail { e: ParseError::RejectUnknownProto }
                        } else {
                            let proto = if seg == "SMTP"@ {
                                RejectProto::SMTP
                            } else {
                                RejectProto::ESMTP
                            };
                            if !has_prefix(t, pe, " helo=<"@) {
                                GOut::Fail { e: ParseError::RejectNoHelo }
                            } else {
                                let hs = pe + 7;
                                match first_in(t, hs, t.len() as int, '>') {
                                    None => GOut::Fail { e: ParseError::RejectBadHelo },
                                    Some(he) => {
                                        let with_expl = has_prefix(t, he, ">: "@);
                                        GOut::Msg {
                                            m: MsgOut::Reject {
                                                reason,
                                                message_s: ms,
                                                message_e: me,
                                                from_s: fs,
                                                from_e: fe,
                                                to_s: if with_to {
                                                    fe + 6
                                                } else {
                                                    0
                                                },
                                                to_e: if with_to {
                                                    end
                                                } else {
                                                    0
                                                },
                                                proto,
                                                helo_s: hs,
                                                helo_e: he,
                                                explanation_s: if with_expl {
                                                    he + 3
                                                } else {
                                                    0
                                                },
                                                explanation_e: if with_expl {
                                                    t.len() as int
                                                } else {
                                                    0
                                                },
                                            },
                                        }
                                    },
                                }
                            }
                        }
                    },
                }
            }
        },
    }
}

impl Reject {
    /// Decode a reject record whose verb has already been recognized.
    pub fn parse(inner: Inner, start: usize, reason: RejectReason) -> (r: Result<
        Option<Message>,
        ParseError,
    >)
        requires
            inner.wf(),
            start <= inner.raw@.len(),
        ensures
            gout_matches(r, inner, spec_reject(inner.raw@, start as int, reason)),
    {
        let len = inner.raw.as_str().unicode_len();
        let vlen: usize = match reason {
            RejectReason::Discard => 10,
            RejectReason::Reject => 9,
            RejectReason::Warn => 7,
        };
        if len - start < vlen {
            // the verb's own characters cannot fit, so no semicolon can be
            // found beyond them
            return Err(ParseError::RejectBadMessage);
        }
        let ms = start + vlen;
        let me = match find_in(inner.raw.as_str(), ms, len, ';') {
            None => { return Err(ParseError::RejectBadMessage) },
            Some(p) => p,
        };
        if !starts_with_at(inner.raw.as_str(), me, "; from=<") {
            return Err(ParseError::RejectNoFrom);
        }
        proof {
            reveal_strlit("; from=<");
        }
        let fs = me + 8;
        let fe = match find_in(inner.raw.as_str(), fs, len, '>') {
            None => { return Err(ParseError::RejectBadFrom) },
            Some(p) => p,
        };
        let with_to = starts_with_at(inner.raw.as_str(), fe, "> to=<");
        let (to_s, to_e, end) = if with_to {
            proof {
                reveal_strlit("> to=<");
            }
            match find_in(inner.raw.as_str(), fe + 6, len, '>') {
                None => { return Err(ParseError::RejectBadTo) },
                Some(p) => (fe + 6, p, p),
            }
        } else {
            (0, 0, fe)
        };
        if !starts_with_at(inner.raw.as_str(), end, "> proto=") {
            return Err(ParseError::RejectNoProto);
        }
        proof {
            reveal_strlit("> proto=");
        }
        let ps = end + 8;
        let pe = match find_in(inner.raw.as_str(), ps, len, ' ') {
            None => { return Err(ParseError::RejectBadProto) },
            Some(p) => p,
        };
        let proto = if range_eq(inner.raw.as_str(), ps, pe, "SMTP") {
            RejectProto::SMTP
        } else if range_eq(inner.raw.as_str(), ps, pe, "ESMTP") {
            proof {
                reveal_strlit("SMTP");
                reveal_strlit("ESMTP");
            }
            RejectProto::ESMTP
        } else {
            return Err(ParseError::RejectUnknownProto);
        };
        if !starts_with_at(inner.raw.as_str(), pe, " helo=<") {
            return Err(ParseError::RejectNoHelo);
        }
        proof {
            reveal_strlit(" helo=<");
        }
        let hs = pe + 7;
        let he = match find_in(inner.raw.as_str(), hs, len, '>') {
            None => { return Err(ParseError::RejectBadHelo) },
            Some(p) => p,
        };
        let with_expl = starts_with_at(inner.raw.as_str(), he, ">: ");
        proof {
            reveal_strlit(">: ");
        }
        let (explanation_s, explanation_e) = if with_expl {
            (he + 3, len)
        } else {
            (0, 0)
        };
        Ok(
            Some(
                Message::Reject {
                    m: Reject {
                        inner,
                        reason,
                        message_s: ms,
                        message_e: me,
                        from_s: fs,
                        from_e: fe,
                        to_s,
                        to_e,
                        proto,
                        helo_s: hs,
                        helo_e: he,
                        explanation_s,
                        explanation_e,
                    },
                },
            ),
        )
    }
}


/// The shared reject grammar fails only with its own checkpoints.
pub proof fn lemma_reject_errors(t: Seq<char>, st: int, reason: RejectReason)
    ensures
        spec_reject(t, st, reason) matches GOut::Fail { e } ==> {
            ||| e is RejectBadMessage
            ||| e is RejectNoFrom
            ||| e is RejectBadFrom
            ||| e is RejectBadTo
            ||| e is RejectNoProto
            ||| e is RejectBadProto
            ||| e is RejectUnknownProto
            ||| e is RejectNoHelo
            ||| e is RejectBadHelo
        },
{
}

} // verus!
