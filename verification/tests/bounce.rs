use maillog::{Bounce, Inner, Message, MessageParser, ParseError, ParserConfig};

fn parse_bounce(s: String) -> Result<Option<Message>, ParseError> {
    let conf = ParserConfig { process_noise: vec!["clamsmtpd".to_string()] };
    let (inner, start) = match Inner::parse(&conf, s) {
        Err(x) => panic!("Parser Error: {}", x.label()),
        Ok(None) => panic!("This should not have been ignored"),
        Ok(Some((x, y))) => (x, y),
    };
    Bounce::parse(inner, start)
}

#[test]
fn bad() {
    let s = "Aug  4 00:03:15 yuuai postfix/bounce[24350]: 7C091208A3:".to_string();
    match parse_bounce(s) {
        Err(ParseError::BounceBad) => (),
        Err(x) => panic!("Wrong error, should have been BounceBad {}", x.label()),
        Ok(None) => panic!("This should not have been ignored"),
        Ok(_) => panic!("This should have failed"),
    };
}

#[test]
fn bad_queue_id() {
    let s =
        "Aug  4 00:03:15 yuuai postfix/bounce[24350]: 7C091208A3: sender non-delivery notification: X"
        .to_string();
    match parse_bounce(s) {
        Err(ParseError::BounceBadQueueID) => (),
        Err(x) => panic!("Wrong error, should have been BounceBad {}", x.label()),
        Ok(None) => panic!("This should not have been ignored"),
        Ok(_) => panic!("This should have failed"),
    };
}

#[test]
fn bounce_valid() {
    let s =
        "Aug  4 00:03:15 yuuai postfix/bounce[24350]: 7C091208A3: sender non-delivery notification: A270E20915"
        .to_string();
    let bounce = match parse_bounce(s) {
        Err(x) => panic!("Parser Error: {}", x.label()),
        Ok(None) => panic!("This should not have been ignored"),
        Ok(Some(Message::Bounce { m: x })) => x,
        Ok(Some(x)) => panic!("Wrong message parsed: {:?}", x),
    };
    assert_eq!(bounce.child_queue_id(), "A270E20915");
    assert_eq!(
        format!("{:?}", bounce),
        "Bounce { inner: Inner { raw: \"Aug  4 00:03:15 yuuai postfix/bounce[24350]: 7C091208A3: sender non-delivery notification: A270E20915\", host_e: 21, queue_s: 22, queue_e: 29, process: Bounce, pid: 24350, queue_id_s: 45, queue_id_e: 55 }, child_queue_id_s: 91, child_queue_id_e: 101 }"
    );
}
