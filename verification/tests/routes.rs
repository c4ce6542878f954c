use signalbot::jwt::{supplied_token, Claims, TimeOutOfRange, TokenError, UserToken};
use signalbot::routes::{
    allowed_in_sender, index, link_qr, validate_recipient, validate_sender, InvalidField,
    LinkTooLong, Message,
};

#[test]
fn index_greets() {
    assert_eq!(index(), "Welcome to the Parlour Signal Bot!\nhttps://parlour.dev");
}

#[test]
fn recipients() {
    assert_eq!(validate_recipient("+48123456789"), Ok(()));
    assert_eq!(validate_recipient("R3JvdXAgaWQ/+w=="), Ok(()));
    assert_eq!(validate_recipient("azAZ09+/="), Ok(()));
    assert_eq!(validate_recipient(""), Ok(()));
    assert_eq!(validate_recipient("+48 123"), Err(InvalidField::Recipient));
    assert_eq!(validate_recipient("a-b"), Err(InvalidField::Recipient));
    assert_eq!(validate_recipient("\u{663}"), Err(InvalidField::Recipient));
    assert_eq!(validate_recipient("abc\u{e9}"), Err(InvalidField::Recipient));
    assert_eq!(validate_recipient("`"), Err(InvalidField::Recipient));
    assert_eq!(validate_recipient("{"), Err(InvalidField::Recipient));
    assert_eq!(validate_recipient("@"), Err(InvalidField::Recipient));
    assert_eq!(validate_recipient("["), Err(InvalidField::Recipient));
    assert_eq!(validate_recipient(":"), Err(InvalidField::Recipient));
}

#[test]
fn senders() {
    assert_eq!(validate_sender("+48123456789"), Ok(()));
    assert_eq!(validate_sender(""), Ok(()));
    assert_eq!(validate_sender("\u{663}\u{2167}\u{bd}"), Ok(()));
    assert_eq!(validate_sender("+48a"), Err(InvalidField::Sender));
    assert_eq!(validate_sender("+48 1"), Err(InvalidField::Sender));
    assert_eq!(validate_sender("1/2"), Err(InvalidField::Sender));
    assert_eq!(validate_sender("1=2"), Err(InvalidField::Sender));
}

#[test]
fn sender_characters() {
    assert!(allowed_in_sender('+', false));
    assert!(allowed_in_sender('7', true));
    assert!(!allowed_in_sender('a', false));
    assert!(!allowed_in_sender('/', false));
}

#[test]
fn field_errors_have_their_words() {
    assert_eq!(InvalidField::Recipient.message(), "Invalid characters in sender or recipient");
    assert_eq!(InvalidField::Sender.message(), "Bad characters in sender");
}

fn message(to_group: bool, recipient: &str, sender: &str) -> Message {
    Message {
        to_group,
        recipient: recipient.to_string(),
        sender: sender.to_string(),
        text: "hello".to_string(),
    }
}

#[test]
fn a_message_is_checked_recipient_first() {
    assert_eq!(message(false, "+1666", "+1555").validate(), Ok(()));
    assert_eq!(message(true, "Z3JvdXA=", "+1555").validate(), Ok(()));
    assert_eq!(message(false, "+1 666", "+1555").validate(), Err(InvalidField::Recipient));
    assert_eq!(message(false, "+1666", "me").validate(), Err(InvalidField::Sender));
    assert_eq!(message(false, "+1 666", "me").validate(), Err(InvalidField::Recipient));
}

#[test]
fn a_message_becomes_a_send() {
    let c = message(false, "+1666", "+1555").command();
    assert_eq!(c.method, "send");
    assert_eq!(c.params.account, Some("+1555".to_string()));
    assert_eq!(c.params.recipient, Some(vec!["+1666".to_string()]));
    assert_eq!(c.params.groupId, None);
    assert_eq!(c.params.message, Some("hello".to_string()));

    let c = message(true, "Z3JvdXA=", "+1555").command();
    assert_eq!(c.method, "send");
    assert_eq!(c.params.account, Some("+1555".to_string()));
    assert_eq!(c.params.recipient, None);
    assert_eq!(c.params.groupId, Some("Z3JvdXA=".to_string()));
    assert_eq!(c.params.message, Some("hello".to_string()));
}

#[test]
fn a_join_link_is_drawn_as_svg() {
    let uri = "sgnl://linkdevice?uuid=abc&pub_key=def";
    let svg = link_qr(uri).unwrap();
    assert_ne!(svg, uri);
    assert!(svg.starts_with("<?xml version=\"1.0\" standalone=\"yes\"?><svg"));
    assert!(svg.ends_with("</svg>"));
    assert!(svg.contains("fill=\"#ffffff\""));
    assert!(svg.contains("fill=\"#000000\""));
    let width: u32 = svg
        .split("width=\"")
        .nth(1)
        .unwrap()
        .split('"')
        .next()
        .unwrap()
        .parse()
        .unwrap();
    assert!(width >= 200);
}

#[test]
fn the_code_does_not_depend_on_white_space_around_the_link() {
    let uri = "sgnl://linkdevice?uuid=abc&pub_key=def";
    assert_eq!(link_qr(&format!("  {}\n", uri)), link_qr(uri));
    assert_ne!(link_qr(&format!("{}x", uri)), link_qr(uri));
}

#[test]
fn a_link_that_fits_no_code_is_refused() {
    let long = "x".repeat(8000);
    assert_eq!(link_qr(&long), Err(LinkTooLong {}));
}

#[test]
fn claims_of_a_new_token() {
    let c = Claims::issued("+1555".to_string(), 1700000000).unwrap();
    assert_eq!(c, Claims { exp: 0, iat: 1700000000, sub: "+1555".to_string() });
    let c = Claims::issued(String::new(), 0).unwrap();
    assert_eq!(c, Claims { exp: 0, iat: 0, sub: String::new() });
    if (usize::MAX as u64) < u64::MAX {
        assert_eq!(Claims::issued("+1555".to_string(), u64::MAX), Err(TimeOutOfRange {}));
    } else {
        assert_eq!(Claims::issued("+1555".to_string(), u64::MAX).unwrap().iat, usize::MAX);
    }
}

#[test]
fn a_token_knows_its_user() {
    let t = UserToken::new(
        "a.b.c".to_string(),
        Claims { exp: 0, iat: 5, sub: "+1555".to_string() },
    );
    assert_eq!(t.get_user(), "+1555");
    assert_eq!(t.token(), "a.b.c");
}

#[test]
fn exactly_one_token_must_be_supplied() {
    assert_eq!(supplied_token(None, None), Err(TokenError::Missing));
    assert_eq!(
        supplied_token(Some("Bearer a.b.c".to_string()), Some("d.e.f".to_string())),
        Err(TokenError::TooMany)
    );
    assert_eq!(supplied_token(Some("Bearer a.b.c".to_string()), None), Ok("a.b.c".to_string()));
    assert_eq!(supplied_token(None, Some("d.e.f".to_string())), Ok("d.e.f".to_string()));
    assert_eq!(supplied_token(None, Some("Bearer d.e.f".to_string())), Ok("Bearer d.e.f".to_string()));
    assert_eq!(supplied_token(Some("a.b.c".to_string()), None), Ok("a.b.c".to_string()));
    assert_eq!(
        supplied_token(Some("Bearer Bearer a.Bearer b".to_string()), None),
        Ok("a.b".to_string())
    );
    assert_eq!(supplied_token(Some("Bearer".to_string()), None), Ok("Bearer".to_string()));
    assert_eq!(supplied_token(Some(String::new()), None), Ok(String::new()));
}

#[test]
fn token_errors_have_their_words_and_status() {
    assert_eq!(TokenError::Missing.message(), "No token supplied");
    assert_eq!(TokenError::TooMany.message(), "Too many tokens supplied");
    assert_eq!(TokenError::Invalid.message(), "Invalid token");
    assert_eq!(TokenError::Missing.status(), 400);
    assert_eq!(TokenError::TooMany.status(), 400);
    assert_eq!(TokenError::Invalid.status(), 401);
}
