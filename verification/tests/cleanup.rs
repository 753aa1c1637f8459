use maillog::{Cleanup, Inner, Message, MessageParser, ParseError, ParserConfig, RejectProto, RejectReason};

fn parse_cleanup(s: String) -> Result<Option<Message>, ParseError> {
    let conf = ParserConfig { process_noise: vec!["clamsmtpd".to_string()] };
    let (inner, start) = match Inner::parse(&conf, s) {
        Err(x) => panic!("Parser Error: {}", x.label()),
        Ok(None) => panic!("This should not have been ignored"),
        Ok(Some((x, y))) => (x, y),
    };
    Cleanup::parse(inner, start)
}

#[test]
fn ignored() {
    let s =
        "Aug  4 04:28:18 ozgurluk postfix-in/cleanup[24617]: warning: bounce: removed spurious C8A031E05FB log"
        .to_string();
    match parse_cleanup(s) {
        Err(x) => panic!("Failed to parse {}", x.label()),
        Ok(None) => (),
        Ok(_) => panic!("This should have been ignored"),
    };
}

#[test]
fn rejected() {
    let s =
        "Aug  4 09:07:20 yuuai postfix-in/cleanup[16854]: CAD22209F3: reject: header X-Mailer: XYZxyz from 1.mo53.mail-out.ovh.net[178.32.108.164]; from=<aaa@bbb.ccc> to=<xxx@yyy.zzz> proto=ESMTP helo=<1.mo53.mail-out.ovh.net>: 5.7.1 spam client software rule"
        .to_string();
    let cleanup = match parse_cleanup(s) {
        Err(x) => panic!("Failed to parse {}", x.label()),
        Ok(None) => panic!("This should not have been ignored"),
        Ok(Some(Message::Reject { m: x })) => x,
        Ok(Some(x)) => panic!("Wrong message parsed: {:?}", x),
    };
    match cleanup.reason {
        RejectReason::Reject => (),
        x => panic!("Parsed wrong reason: {:?}", x),
    }
    assert_eq!(
        cleanup.message(),
        "header X-Mailer: XYZxyz from 1.mo53.mail-out.ovh.net[178.32.108.164]"
    );
    assert_eq!(cleanup.from(), "aaa@bbb.ccc");
    match cleanup.to() {
        None => panic!("Failed to parse to"),
        Some(s) => assert_eq!(s, "xxx@yyy.zzz"),
    }
    match cleanup.proto {
        RejectProto::ESMTP => (),
        x => panic!("Parsed wrong proto: {:?}", x),
    }
    assert_eq!(cleanup.helo(), "1.mo53.mail-out.ovh.net");
    match cleanup.explanation() {
        None => panic!("Failed to parse explanation"),
        Some(s) => assert_eq!(s, "5.7.1 spam client software rule"),
    }
    assert_eq!(
        format!("{:?}", cleanup),
        "Reject { inner: Inner { raw: \"Aug  4 09:07:20 yuuai postfix-in/cleanup[16854]: CAD22209F3: reject: header X-Mailer: XYZxyz from 1.mo53.mail-out.ovh.net[178.32.108.164]; from=<aaa@bbb.ccc> to=<xxx@yyy.zzz> proto=ESMTP helo=<1.mo53.mail-out.ovh.net>: 5.7.1 spam client software rule\", host_e: 21, queue_s: 22, queue_e: 32, process: Cleanup, pid: 16854, queue_id_s: 49, queue_id_e: 59 }, reason: Reject, message_s: 69, message_e: 137, from_s: 145, from_e: 156, to_s: 162, to_e: 173, proto: ESMTP, helo_s: 193, helo_e: 216, explanation_s: 219, explanation_e: 250 }"
    );
}

#[test]
fn cleanup_no_orig_client() {
    let s = "Aug  4 00:00:01 yuuai postfix-in/cleanup[22502]: A071220883: message-id".to_string();
    match parse_cleanup(s) {
        Err(ParseError::CleanupNoMessageID) => (),
        Err(x) => panic!("Wrong error, should have been CleanupNoMessageID {}", x.label()),
        Ok(None) => panic!("This should not have been ignored"),
        Ok(_) => panic!("This should have failed"),
    };
}

#[test]
fn cleanup_valid() {
    let s =
        "Aug  4 00:00:01 yuuai postfix-in/cleanup[22502]: A071220883: message-id=<20150803220001.5E2AA52093C@mail2.les-moocs-gmf.fr"
        .to_string();
    let cleanup = match parse_cleanup(s) {
        Err(x) => panic!("Parser Error: {}", x.label()),
        Ok(None) => panic!("This should not have been ignored"),
        Ok(Some(Message::Cleanup { m: x })) => x,
        Ok(Some(x)) => panic!("Wrong message parsed: {:?}", x),
    };
    assert_eq!(cleanup.message_id(), "20150803220001.5E2AA52093C@mail2.les-moocs-gmf.fr");
    assert_eq!(cleanup.resent, false);
    let s =
        "Aug  4 00:00:01 yuuai postfix-in/cleanup[22502]: A071220883: message-id=20150803220001.5E2AA52093C@mail2.les-moocs-gmf.fr"
        .to_string();
    let cleanup = match parse_cleanup(s) {
        Err(x) => panic!("Parser Error: {}", x.label()),
        Ok(None) => panic!("This should not have been ignored"),
        Ok(Some(Message::Cleanup { m: x })) => x,
        Ok(Some(x)) => panic!("Wrong message parsed: {:?}", x),
    };
    assert_eq!(cleanup.message_id(), "20150803220001.5E2AA52093C@mail2.les-moocs-gmf.fr");
    assert_eq!(cleanup.resent, false);
    let s = "Aug  4 00:03:09 yuuai postfix-in/cleanup[22656]: 40A67208A3: resent-message-id=<PbhLmifNtVG.A.mh.ZU-vVB@bendel>"
        .to_string();
    let cleanup = match parse_cleanup(s) {
        Err(x) => panic!("Parser Error: {}", x.label()),
        Ok(None) => panic!("This should not have been ignored"),
        Ok(Some(Message::Cleanup { m: x })) => x,
        Ok(Some(x)) => panic!("Wrong message parsed: {:?}", x),
    };
    assert_eq!(cleanup.message_id(), "PbhLmifNtVG.A.mh.ZU-vVB@bendel");
    assert_eq!(cleanup.resent, true);
    let s =
        "Aug  4 00:00:01 yuuai postfix-in/cleanup[22502]: A071220883: message-id=<20150803220001.5E2AA52093C@mail2.les-moocs-gmf.fr>"
        .to_string();
    let cleanup = match parse_cleanup(s) {
        Err(x) => panic!("Parser Error: {}", x.label()),
        Ok(None) => panic!("This should not have been ignored"),
        Ok(Some(Message::Cleanup { m: x })) => x,
        Ok(Some(x)) => panic!("Wrong message parsed: {:?}", x),
    };
    assert_eq!(cleanup.message_id(), "20150803220001.5E2AA52093C@mail2.les-moocs-gmf.fr");
    assert_eq!(cleanup.resent, false);
    assert_eq!(
        format!("{:?}", cleanup),
        "Cleanup { inner: Inner { raw: \"Aug  4 00:00:01 yuuai postfix-in/cleanup[22502]: A071220883: message-id=<20150803220001.5E2AA52093C@mail2.les-moocs-gmf.fr>\", host_e: 21, queue_s: 22, queue_e: 32, process: Cleanup, pid: 22502, queue_id_s: 49, queue_id_e: 59 }, message_id_s: 73, message_id_e: 122, resent: false }"
    );
}
