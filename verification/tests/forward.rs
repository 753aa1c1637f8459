use maillog::{Forward, Inner, Message, MessageParser, ParseError, ParserConfig};

fn parse_forward(s: String) -> Result<Option<Message>, ParseError> {
    let conf = ParserConfig { process_noise: vec!["clamsmtpd".to_string()] };
    let (inner, start) = match Inner::parse(&conf, s) {
        Err(x) => panic!("Parser Error: {}", x.label()),
        Ok(None) => panic!("This should not have been ignored"),
        Ok(Some((x, y))) => (x, y),
    };
    Forward::parse(inner, start)
}

#[test]
fn broken_host() {
    match parse_forward("Aug  4 00:01:08 yuuai postfix/smtp[10627]: C217620B0B: host ".to_string())
    {
        Err(ParseError::ForwardBadHost) => (),
        Err(x) => panic!("Wrong Error (should have been ForwardBadHost): {}", x.label()),
        _ => panic!("Should have failed"),
    }
}

#[test]
fn no_message() {
    match parse_forward(
        "Aug  4 00:01:08 yuuai postfix/smtp[10627]: C217620B0B: host gmail-smtp-in.l.google.com[64.233.167.26] "
            .to_string(),
    ) {
        Err(ParseError::ForwardNoMessage) => (),
        Err(x) => panic!("Wrong Error (should have been ForwardNoMessage): {}", x.label()),
        _ => panic!("Should have failed"),
    }
}

#[test]
fn broken_to() {
    match parse_forward("Jul 25 00:00:01 yuuai postfix/smtp[3703]: 0345620AE4:".to_string()) {
        Err(ParseError::ForwardNoTo) => (),
        Err(x) => panic!("Wrong Error (should have been ForwardNoTo): {}", x.label()),
        _ => panic!("Should have failed"),
    }
    match parse_forward("Jul 25 00:00:01 yuuai postfix/smtp[3703]: 0345620AE4: to=".to_string()) {
        Err(ParseError::ForwardNoTo) => (),
        Err(x) => panic!("Wrong Error (should have been ForwardNoTo): {}", x.label()),
        _ => panic!("Should have failed"),
    }
    match parse_forward("Jul 25 00:00:01 yuuai postfix/smtp[3703]: 0345620AE4: to=<".to_string()) {
        Err(ParseError::ForwardBadTo) => (),
        Err(x) => panic!("Wrong Error (should have been ForwardBadTo): {}", x.label()),
        _ => panic!("Should have failed"),
    }
}

#[test]
fn broken_orig_to() {
    match parse_forward(
        "Jul 25 00:00:01 yuuai postfix/smtp[3703]: 0345620AE4: to=<xxxx@melix.net>, orig_to=<"
            .to_string(),
    ) {
        Err(ParseError::ForwardBadOrigTo) => (),
        Err(x) => panic!("Wrong Error (should have been ForwardBadOrigTo): {}", x.label()),
        _ => panic!("Should have failed"),
    }
}

#[test]
fn broken_relay() {
    match parse_forward("Jul 25 00:00:01 yuuai postfix/smtp[3703]: 0345620AE4: to=<>".to_string())
    {
        Err(ParseError::ForwardNoRelay) => (),
        Err(x) => panic!("Wrong Error (should have been ForwardNoRelay): {}", x.label()),
        _ => panic!("Should have failed"),
    }
    match parse_forward(
        "Jul 25 00:00:01 yuuai postfix/smtp[3703]: 0345620AE4: to=<>, orig_to=<>".to_string(),
    ) {
        Err(ParseError::ForwardNoRelay) => (),
        Err(x) => panic!("Wrong Error (should have been ForwardNoRelay): {}", x.label()),
        _ => panic!("Should have failed"),
    }
    match parse_forward(
        "Jul 25 00:00:01 yuuai postfix/smtp[3703]: 0345620AE4: to=<>, orig_to=<>, relay="
            .to_string(),
    ) {
        Err(ParseError::ForwardBadRelay) => (),
        Err(x) => panic!("Wrong Error (should have been ForwardBadRelay): {}", x.label()),
        _ => panic!("Should have failed"),
    }
}

#[test]
fn broken_conn_use() {
    match parse_forward(
        "Jul 25 00:00:01 yuuai postfix/smtp[3703]: 0345620AE4: to=<>, orig_to=<>, relay=, conn_use=2"
            .to_string(),
    ) {
        Err(ParseError::ForwardBadConn) => (),
        Err(x) => panic!("Wrong Error (should have been ForwardBadConn): {}", x.label()),
        _ => panic!("Should have failed"),
    }
}

#[test]
fn broken_delays() {
    match parse_forward(
        "Jul 25 00:00:01 yuuai postfix/smtp[3703]: 0345620AE4: to=<>, orig_to=<>, relay=,"
            .to_string(),
    ) {
        Err(ParseError::ForwardNoDelay) => (),
        Err(x) => panic!("Wrong Error (should have been ForwardNoDelay): {}", x.label()),
        _ => panic!("Should have failed"),
    }
    match parse_forward(
        "Jul 25 00:00:01 yuuai postfix/smtp[3703]: 0345620AE4: to=<>, orig_to=<>, relay=,,"
            .to_string(),
    ) {
        Err(ParseError::ForwardNoDelays) => (),
        Err(x) => panic!("Wrong Error (should have been ForwardNoDelays): {}", x.label()),
        _ => panic!("Should have failed"),
    }
}

#[test]
fn broken_dsn() {
    match parse_forward(
        "Jul 25 00:00:01 yuuai postfix/smtp[3703]: 0345620AE4: to=<>, orig_to=<>, relay=,,,"
            .to_string(),
    ) {
        Err(ParseError::ForwardNoDSN) => (),
        Err(x) => panic!("Wrong Error (should have been ForwardNoDSN): {}", x.label()),
        _ => panic!("Should have failed"),
    }
    match parse_forward(
        "Jul 25 00:00:01 yuuai postfix/smtp[3703]: 0345620AE4: to=<>, orig_to=<>, relay=,,, dsn="
            .to_string(),
    ) {
        Err(ParseError::ForwardBadDSN) => (),
        Err(x) => panic!("Wrong Error (should have been ForwardBadDSN): {}", x.label()),
        _ => panic!("Should have failed"),
    }
    match parse_forward(
        "Jul 25 00:00:01 yuuai postfix/smtp[3703]: 0345620AE4: to=<>, orig_to=<>, relay=,,, dsn=,"
            .to_string(),
    ) {
        Err(ParseError::ForwardDSNBadLen) => (),
        Err(x) => panic!("Wrong Error (should have been ForwardDSNBadLen): {}", x.label()),
        _ => panic!("Should have failed"),
    }
    match parse_forward(
        "Jul 25 00:00:01 yuuai postfix/smtp[3703]: 0345620AE4: to=<>, orig_to=<>, relay=,,, dsn=1.2.3.4,"
            .to_string(),
    ) {
        Err(ParseError::ForwardDSNBadLen) => (),
        Err(x) => panic!("Wrong Error (should have been ForwardDSNBadLen): {}", x.label()),
        _ => panic!("Should have failed"),
    }
    match parse_forward(
        "Jul 25 00:00:01 yuuai postfix/smtp[3703]: 0345620AE4: to=<>, orig_to=<>, relay=,,, dsn=x.y.z,"
            .to_string(),
    ) {
        Err(ParseError::PickupDSNNotInt) => (),
        Err(x) => panic!("Wrong Error (should have been PickupDSNNotInt): {}", x.label()),
        _ => panic!("Should have failed"),
    }
    match parse_forward(
        "Jul 25 00:00:01 yuuai postfix/smtp[3703]: 0345620AE4: to=<>, orig_to=<>, relay=,,, dsn=1024.0.1,"
            .to_string(),
    ) {
        Err(ParseError::PickupDSNNotInt) => (),
        Err(x) => panic!("Wrong Error (should have been PickupDSNNotInt): {}", x.label()),
        _ => panic!("Should have failed"),
    }
}

#[test]
fn broken_status() {
    match parse_forward(
        "Jul 25 00:00:01 yuuai postfix/smtp[3703]: 0345620AE4: to=<>, orig_to=<>, relay=,,, dsn=0.0.0,"
            .to_string(),
    ) {
        Err(ParseError::ForwardNoStatus) => (),
        Err(x) => panic!("Wrong Error (should have been ForwardNoStatus): {}", x.label()),
        _ => panic!("Should have failed"),
    }
}

#[test]
fn forward_no_queue_id() {
    match parse_forward(
        "Jul 25 00:00:01 yuuai postfix/smtp[8311]: connect to gmail-smtp-in.l.google.com[2a00:1450:400c:c02::1a]:25: Network is unreachable"
            .to_string(),
    ) {
        Err(x) => panic!("Parser Error: {}", x.label()),
        Ok(None) => (),
        Ok(Some(_)) => panic!("This should have been ignored"),
    }
}

#[test]
fn valid_error() {
    let s =
        "Aug  4 00:01:08 yuuai postfix/smtp[10627]: C217620B0B: host gmail-smtp-in.l.google.com[64.233.167.26] said: 421-4.7.0 [129.104.30.35      15] Our system has detected an unusual rate of 421-4.7.0 unsolicited mail originating from your IP address. To protect our 421-4.7.0 users from spam, mail sent from your IP address has been temporarily 421-4.7.0 rate limited. Please visit 421-4.7.0  https://support.google.com/mail/answer/81126 to review our Bulk Email 421 4.7.0 Senders Guidelines. md4si16637671wic.106 - gsmtp (in reply to end of DATA command)"
        .to_string();
    let forward = match parse_forward(s) {
        Err(x) => panic!("Parser Error: {}", x.label()),
        Ok(None) => panic!("This should not have been ignored"),
        Ok(Some(Message::ForwardError { m: x })) => x,
        Ok(Some(x)) => panic!("Wrong message parsed: {:?}", x),
    };
    assert_eq!(forward.host(), "gmail-smtp-in.l.google.com[64.233.167.26]");
    assert_eq!(
        forward.message(),
        "421-4.7.0 [129.104.30.35      15] Our system has detected an unusual rate of 421-4.7.0 unsolicited mail originating from your IP address. To protect our 421-4.7.0 users from spam, mail sent from your IP address has been temporarily 421-4.7.0 rate limited. Please visit 421-4.7.0  https://support.google.com/mail/answer/81126 to review our Bulk Email 421 4.7.0 Senders Guidelines. md4si16637671wic.106 - gsmtp (in reply to end of DATA command)"
    );
    assert_eq!(
        format!("{:?}", forward),
        "ForwardError { inner: Inner { raw: \"Aug  4 00:01:08 yuuai postfix/smtp[10627]: C217620B0B: host gmail-smtp-in.l.google.com[64.233.167.26] said: 421-4.7.0 [129.104.30.35      15] Our system has detected an unusual rate of 421-4.7.0 unsolicited mail originating from your IP address. To protect our 421-4.7.0 users from spam, mail sent from your IP address has been temporarily 421-4.7.0 rate limited. Please visit 421-4.7.0  https://support.google.com/mail/answer/81126 to review our Bulk Email 421 4.7.0 Senders Guidelines. md4si16637671wic.106 - gsmtp (in reply to end of DATA command)\", host_e: 21, queue_s: 22, queue_e: 29, process: Smtp, pid: 10627, queue_id_s: 43, queue_id_e: 53 }, host_s: 60, host_e: 101, message_s: 108, message_e: 550 }"
    );
}

#[test]
fn forward_valid() {
    let s =
        "Jul 25 00:00:01 yuuai postfix/smtp[3703]: 0345620AE4: to=<xxxx@melix.net>, orig_to=<yyy@melix.net>, relay=127.0.0.1[127.0.0.1]:10024, conn_use=2, delay=0.57, delays=0.4/0/0.04/0.13, dsn=2.0.0, status=sent (250 2.0.0 Ok: queued as 60F6120AF9)"
        .to_string();
    let forward = match parse_forward(s) {
        Err(x) => panic!("Parser Error: {}", x.label()),
        Ok(None) => panic!("This should not have been ignored"),
        Ok(Some(Message::Forward { m: x })) => x,
        Ok(Some(x)) => panic!("Wrong message parsed: {:?}", x),
    };
    assert_eq!(forward.to(), "xxxx@melix.net");
    assert_eq!(forward.orig_to(), Some("yyy@melix.net"));
    assert_eq!(forward.relay(), "127.0.0.1");
    assert_eq!(forward.dsn, [2, 0, 0]);
    assert_eq!(forward.status(), "sent (250 2.0.0 Ok: queued as 60F6120AF9)");
    assert_eq!(forward.child_queue(), Some("60F6120AF9"));
    assert_eq!(
        format!("{:?}", forward),
        "Forward { inner: Inner { raw: \"Jul 25 00:00:01 yuuai postfix/smtp[3703]: 0345620AE4: to=<xxxx@melix.net>, orig_to=<yyy@melix.net>, relay=127.0.0.1[127.0.0.1]:10024, conn_use=2, delay=0.57, delays=0.4/0/0.04/0.13, dsn=2.0.0, status=sent (250 2.0.0 Ok: queued as 60F6120AF9)\", host_e: 21, queue_s: 22, queue_e: 29, process: Smtp, pid: 3703, queue_id_s: 42, queue_id_e: 52 }, to_s: 58, to_e: 72, orig_to_s: 84, orig_to_e: 97, relay_s: 116, relay_e: 125, dsn: [2, 0, 0], status_s: 200, status_e: 241, child_queue_id_s: 230, child_queue_id_e: 240 }"
    );
    let s =
        "Jul 25 00:00:01 yuuai postfix/smtp[3703]: 0345620AE4: to=<xxxx@melix.net>, relay=bogofilter, delay=0.57, delays=0.4/0/0.04/0.13, dsn=2.0.0, status=sent (delivered via bogofilter service)"
        .to_string();
    let forward = match parse_forward(s) {
        Err(x) => panic!("Parser Error: {}", x.label()),
        Ok(None) => panic!("This should not have been ignored"),
        Ok(Some(Message::Forward { m: x })) => x,
        Ok(Some(x)) => panic!("Wrong message parsed: {:?}", x),
    };
    assert_eq!(forward.to(), "xxxx@melix.net");
    assert_eq!(forward.orig_to(), None);
    assert_eq!(forward.relay(), "bogofilter");
    assert_eq!(forward.dsn, [2, 0, 0]);
    assert_eq!(forward.status(), "sent (delivered via bogofilter service)");
    assert_eq!(forward.child_queue(), None);
    assert_eq!(
        format!("{:?}", forward),
        "Forward { inner: Inner { raw: \"Jul 25 00:00:01 yuuai postfix/smtp[3703]: 0345620AE4: to=<xxxx@melix.net>, relay=bogofilter, delay=0.57, delays=0.4/0/0.04/0.13, dsn=2.0.0, status=sent (delivered via bogofilter service)\", host_e: 21, queue_s: 22, queue_e: 29, process: Smtp, pid: 3703, queue_id_s: 42, queue_id_e: 52 }, to_s: 58, to_e: 72, orig_to_s: 0, orig_to_e: 0, relay_s: 81, relay_e: 91, dsn: [2, 0, 0], status_s: 147, status_e: 186, child_queue_id_s: 0, child_queue_id_e: 0 }"
    );
}
