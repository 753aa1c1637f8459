use maillog::{parse_line, Message, ParseError, ParserConfig};

fn parse(s: String) -> Result<Option<Message>, ParseError> {
    let conf = ParserConfig { process_noise: vec!["clamsmtpd".to_string()] };
    parse_line(s, &conf)
}

#[test]
fn parse_ignore() {
    match parse("Sep  3 00:00:03 yuuai clamsmtpd:".to_string()) {
        Ok(None) => (),
        Err(x) => panic!("Wrong Error (Should have been ignored): {}", x.label()),
        _ => panic!("Should have been ignored"),
    }
}

#[test]
fn scenario_qmgr_removed() {
    let s = "Jul 25 00:00:01 host postfix/qmgr[32099]: 77A8F1409B022: removed".to_string();
    let m = match parse(s) {
        Ok(Some(Message::QmgrRemoved { m })) => m,
        x => panic!("Expected QmgrRemoved, got {:?}", x),
    };
    assert_eq!(m.inner.host(), "host");
    assert_eq!(m.inner.queue_id(), Some("77A8F1409B022"));
}

#[test]
fn scenario_qmgr_active() {
    let s = "Jul 25 00:00:01 host postfix/qmgr[32099]: 77A8F1409B022: from=<a@b.c>, size=665, nrcpt=1 (queue active)"
        .to_string();
    let m = match parse(s) {
        Ok(Some(Message::Qmgr { m })) => m,
        x => panic!("Expected Qmgr, got {:?}", x),
    };
    assert_eq!(m.from(), Some("a@b.c"));
    assert_eq!(m.size, 665);
    assert_eq!(m.nrcpt, 1);
}

#[test]
fn scenario_forward_queued_as() {
    let s = "Jul 25 00:00:01 host postfix/smtp[3703]: 0345620AE4: to=<x@y>, relay=1.2.3.4[1.2.3.4]:10024, conn_use=2, delay=0.57, delays=0.4/0/0.04/0.13, dsn=2.0.0, status=sent (250 2.0.0 Ok: queued as 60F6120AF9)"
        .to_string();
    let m = match parse(s) {
        Ok(Some(Message::Forward { m })) => m,
        x => panic!("Expected Forward, got {:?}", x),
    };
    assert_eq!(m.to(), "x@y");
    assert_eq!(m.relay(), "1.2.3.4");
    assert_eq!(m.dsn, [2, 0, 0]);
    assert_eq!(m.child_queue(), Some("60F6120AF9"));
}

#[test]
fn scenario_dsn_four_components() {
    let s = "Jul 25 00:00:01 host postfix/smtp[3703]: 0345620AE4: to=<x@y>, relay=r, delay=0.57, delays=0.4/0/0.04/0.13, dsn=1.2.3.4, status=sent"
        .to_string();
    match parse(s) {
        Err(ParseError::ForwardDSNBadLen) => (),
        x => panic!("Expected ForwardDSNBadLen, got {:?}", x),
    }
}

#[test]
fn scenario_cleanup_warning_ignored() {
    let s = "Aug  4 04:28:18 host postfix-in/cleanup[24617]: warning: bounce: removed spurious C8A031E05FB log"
        .to_string();
    match parse(s) {
        Ok(None) => (),
        x => panic!("Expected the line to be ignored, got {:?}", x),
    }
}

#[test]
fn noise_beats_malformed_rest() {
    // the rest of the line is grammatically hopeless, but the noise
    // filter runs first
    match parse("Sep  3 00:00:03 yuuai clamsmtpd///[[[:::".to_string()) {
        Ok(None) => (),
        x => panic!("Expected the line to be ignored, got {:?}", x),
    }
}

#[test]
fn decoding_is_repeatable() {
    let line = "Jul 25 00:00:01 host postfix/qmgr[32099]: 77A8F1409B022: from=<a@b.c>, size=665, nrcpt=1 (queue active)";
    let first = match parse(line.to_string()) {
        Ok(Some(Message::Qmgr { m })) => m,
        x => panic!("Expected Qmgr, got {:?}", x),
    };
    let second = match parse(line.to_string()) {
        Ok(Some(Message::Qmgr { m })) => m,
        x => panic!("Expected Qmgr, got {:?}", x),
    };
    assert_eq!(format!("{:?}", first), format!("{:?}", second));
}

#[test]
fn nonhex_queue_id_is_not_an_error() {
    // lowercase hex is outside the queue-id alphabet: the id is absent,
    // and the line is not rejected on its account
    let s = "Aug  4 00:00:09 yuuai postfix/smtpd[20518]: deadbeef: disconnect".to_string();
    match parse(s) {
        Ok(None) => (),
        x => panic!("Expected the line to be ignored, got {:?}", x),
    }
}

#[test]
fn unknown_process_only_for_keywords() {
    // a malformed queue id never produces UnknownProcess; only an
    // unrecognized process keyword does
    let s = "Sep  3 00:00:03 yuuai postfix-in/zebra[31247]: 12C172090B: x".to_string();
    match parse(s) {
        Err(ParseError::UnknownProcess) => (),
        x => panic!("Expected UnknownProcess, got {:?}", x),
    }
    let s = "Aug  4 00:00:08 yuuai postfix/smtpd.local[20039]: zzz: client=c".to_string();
    match parse(s) {
        Err(ParseError::UnknownProcess) => panic!("UnknownProcess must not fire for queue ids"),
        Ok(None) => (),
        x => panic!("Expected the line to be ignored, got {:?}", x),
    }
}

#[test]
fn anvil_is_ignored() {
    let s = "Sep  3 00:00:03 yuuai postfix/anvil[3164]: statistics: max connection rate 1/60s"
        .to_string();
    match parse(s) {
        Ok(None) => (),
        x => panic!("Expected the line to be ignored, got {:?}", x),
    }
}

#[test]
fn pickup_strips_trailing_newline() {
    let s = "Sep  3 00:00:03 yuuai postfix/pickup[12797]: 12C172090B: uid=106 from=<root@example.com>\n"
        .to_string();
    let m = match parse(s) {
        Ok(Some(Message::Pickup { m })) => m,
        x => panic!("Expected Pickup, got {:?}", x),
    };
    assert_eq!(m.uid, 106);
    assert_eq!(m.from(), "root@example.com");
}

#[test]
fn local_dispatches_to_forward() {
    let s = "Jul 25 00:00:01 host postfix/local[3703]: 0345620AE4: to=<x@y>, relay=local, delay=0.1, delays=0.1/0/0/0, dsn=2.0.0, status=sent (delivered to command: procmail)"
        .to_string();
    let m = match parse(s) {
        Ok(Some(Message::Forward { m })) => m,
        x => panic!("Expected Forward, got {:?}", x),
    };
    assert_eq!(m.relay(), "local");
    assert_eq!(m.status(), "sent (delivered to command: procmail)");
    assert_eq!(m.child_queue(), None);
}

#[test]
fn smtpd_non_ending_method() {
    let s = "Jul 25 00:00:09 svoboda postfix/smtpd[5884]: 87E611409B022: client=c, sasl_method=LOGIN"
        .to_string();
    match parse(s) {
        Err(ParseError::SmtpdNonEndingMethod) => (),
        x => panic!("Expected SmtpdNonEndingMethod, got {:?}", x),
    }
}

#[test]
fn smtpd_unknown_method() {
    let s = "Jul 25 00:00:09 svoboda postfix/smtpd[5884]: 87E611409B022: client=c, sasl_method=OAUTH, sasl_username=u"
        .to_string();
    match parse(s) {
        Err(ParseError::SmtpdUnknownMethod) => (),
        x => panic!("Expected SmtpdUnknownMethod, got {:?}", x),
    }
}

#[test]
fn smtpd_no_username() {
    let s = "Jul 25 00:00:09 svoboda postfix/smtpd[5884]: 87E611409B022: client=c, sasl_method=PLAIN,"
        .to_string();
    match parse(s) {
        Err(ParseError::SmtpdNoUsername) => (),
        x => panic!("Expected SmtpdNoUsername, got {:?}", x),
    }
}

#[test]
fn smtpd_plain_method() {
    let s = "Jul 25 00:00:09 svoboda postfix/smtpd[5884]: 87E611409B022: client=c, sasl_method=PLAIN, sasl_username=someone"
        .to_string();
    let m = match parse(s) {
        Ok(Some(Message::SmtpdLogin { m })) => m,
        x => panic!("Expected SmtpdLogin, got {:?}", x),
    };
    assert_eq!(m.client(), "c");
    assert_eq!(m.sasl_username(), "someone");
}

#[test]
fn pid_bounds() {
    // the pid must be a decimal integer that fits: one digit too many and
    // the preamble is rejected at the pid checkpoint
    let s = "Sep  3 00:00:03 yuuai postfix/pickup[4294967295]: 12C172090B: uid=1 from=<a>".to_string();
    match parse(s) {
        Ok(Some(Message::Pickup { m })) => assert_eq!(m.inner.pid, 4294967295),
        x => panic!("Expected Pickup, got {:?}", x),
    }
    let s = "Sep  3 00:00:03 yuuai postfix/pickup[4294967296]: 12C172090B: uid=1 from=<a>".to_string();
    match parse(s) {
        Err(ParseError::BadProcessID) => (),
        x => panic!("Expected BadProcessID, got {:?}", x),
    }
}

#[test]
fn empty_queue_id_segment() {
    // an empty segment before the colon is vacuously all-hex: an empty
    // queue id is recorded, and the qmgr grammar then rejects the rest
    let s = "Jul 25 00:00:01 host postfix/qmgr[32099]: : x".to_string();
    match parse(s) {
        Err(ParseError::QmgrNoFrom) => (),
        x => panic!("Expected QmgrNoFrom, got {:?}", x),
    }
}
