use cv_contact::address::{extract_address, strip_port, AddressParseError, ClientAddress};
use cv_contact::message::{compose, ComposeError, Config, ConfigError, ContactSubmission};
use cv_contact::pipeline::{respond, Action, Contact, Outcome, Phase, SubmissionResult};

fn config() -> Config {
    match Config::new(
        String::from("secret"),
        String::from("smtp.example.com"),
        String::from("user"),
        String::from("password"),
        String::from("site@example.com"),
        String::from("owner@example.com"),
    ) {
        Ok(c) => c,
        Err(e) => panic!("configuration refused: {:?}", e),
    }
}

fn submission(email: &str) -> ContactSubmission {
    ContactSubmission::new(String::from("ok"), String::from(email), String::from("hello"))
}

fn assert_answer(r: &SubmissionResult, status: u32, message: &str) {
    assert_eq!(r.status, status);
    assert_eq!(r.message, message);
}

fn verified_contact(verified: bool, email: &str) -> (Contact, Action) {
    let mut c = Contact::new();
    match c.on_address(extract_address(Some("203.0.113.5:54321"))) {
        Action::Verify(a) => assert_eq!(a, ClientAddress::V4([203, 0, 113, 5])),
        _ => panic!("expected a verification request"),
    }
    let a = c.on_verification(verified, &config(), &submission(email));
    (c, a)
}

#[test]
fn address_with_port_is_stripped() {
    assert_eq!(extract_address(Some("203.0.113.5:54321")), Ok(ClientAddress::V4([203, 0, 113, 5])));
}

#[test]
fn address_without_port_is_kept() {
    assert_eq!(extract_address(Some("203.0.113.5")), Ok(ClientAddress::V4([203, 0, 113, 5])));
}

#[test]
fn address_that_is_not_an_ip_is_refused() {
    assert_eq!(extract_address(Some("not-an-ip")), Err(AddressParseError::Malformed));
}

#[test]
fn empty_address_is_refused() {
    assert_eq!(extract_address(Some("")), Err(AddressParseError::Malformed));
}

#[test]
fn missing_address_is_refused() {
    assert_eq!(extract_address(None), Err(AddressParseError::Missing));
}

#[test]
fn bracketed_ipv6_with_port() {
    assert_eq!(
        extract_address(Some("[2001:db8::7]:443")),
        Ok(ClientAddress::V6([0x2001, 0xdb8, 0, 0, 0, 0, 0, 7]))
    );
}

#[test]
fn bare_ipv6_is_not_cut_at_its_last_group() {
    assert_eq!(extract_address(Some("::1")), Ok(ClientAddress::V6([0, 0, 0, 0, 0, 0, 0, 1])));
}

#[test]
fn extraction_is_idempotent() {
    let first = extract_address(Some("203.0.113.5:54321"));
    let again = extract_address(strip_port("203.0.113.5:54321"));
    assert_eq!(first, again);
    assert_eq!(extract_address(Some("203.0.113.5")), first);
}

#[test]
fn strip_port_cases() {
    assert_eq!(strip_port("203.0.113.5:54321"), Some("203.0.113.5"));
    assert_eq!(strip_port("[::1]:8080"), Some("::1"));
    assert_eq!(strip_port("203.0.113.5"), None);
    assert_eq!(strip_port("host:"), None);
    assert_eq!(strip_port(":80"), None);
}

#[test]
fn bad_port_text_is_refused() {
    assert_eq!(extract_address(Some("203.0.113.5:80x")), Err(AddressParseError::Malformed));
}

#[test]
fn config_keeps_its_settings() {
    let c = config();
    assert_eq!(c.captcha_secret(), "secret");
    assert_eq!(c.smtp_host(), "smtp.example.com");
    assert_eq!(c.smtp_username(), "user");
    assert_eq!(c.smtp_password(), "password");
    assert_eq!(c.sender(), "site@example.com");
    assert_eq!(c.recipient(), "owner@example.com");
    c.check_addresses();
}

#[test]
fn config_refuses_bad_sender() {
    let r = Config::new(
        String::from("s"),
        String::from("h"),
        String::from("u"),
        String::from("p"),
        String::from("not an address"),
        String::from("owner@example.com"),
    );
    assert_eq!(r.err(), Some(ConfigError::InvalidSender));
}

#[test]
fn config_refuses_bad_recipient() {
    let r = Config::new(
        String::from("s"),
        String::from("h"),
        String::from("u"),
        String::from("p"),
        String::from("site@example.com"),
        String::from("owner"),
    );
    assert_eq!(r.err(), Some(ConfigError::InvalidRecipient));
}

#[test]
fn compose_keeps_the_visitor_parts() {
    let m = match compose(&config(), &submission("visitor@example.com")) {
        Ok(m) => m,
        Err(e) => panic!("not composed: {:?}", e),
    };
    assert_eq!(m.from, "site@example.com");
    assert_eq!(m.to, "owner@example.com");
    assert_eq!(m.reply_to, "visitor@example.com");
    assert_eq!(m.subject, "Message from the CV website");
    assert_eq!(m.body, "hello");
    let text = String::from_utf8(m.email.formatted()).unwrap();
    assert!(text.contains("Reply-To: visitor@example.com"));
    assert!(text.contains("To: owner@example.com"));
    assert!(text.contains("From: site@example.com"));
}

#[test]
fn compose_refuses_malformed_reply_to() {
    assert_eq!(
        compose(&config(), &submission("visitor-at-example")).err(),
        Some(ComposeError::InvalidReplyTo)
    );
}

#[test]
fn scenario_accepted() {
    let (mut c, a) = verified_contact(true, "visitor@example.com");
    match a {
        Action::Relay(m) => {
            assert_eq!(m.body, "hello");
            assert_eq!(m.from, "site@example.com");
            assert_eq!(m.to, "owner@example.com");
            assert_eq!(m.reply_to, "visitor@example.com");
        }
        _ => panic!("expected a relay request"),
    }
    assert_eq!(c.relays(), 1);
    let r = c.on_relay(true);
    assert_answer(&r, 200, "Thanks for contacting me :)");
    assert_eq!(c.phase(), Phase::Sent);
    assert_eq!(c.relays(), 1);
}

#[test]
fn scenario_invalid_captcha() {
    let (c, a) = verified_contact(false, "visitor@example.com");
    match a {
        Action::Respond(r) => assert_answer(&r, 403, "Invalid Captcha"),
        _ => panic!("expected an answer"),
    }
    assert_eq!(c.relays(), 0);
    assert_eq!(c.phase(), Phase::Rejected);
}

#[test]
fn scenario_relay_authentication_fails() {
    let (mut c, a) = verified_contact(true, "visitor@example.com");
    assert!(matches!(a, Action::Relay(_)));
    let r = c.on_relay(false);
    assert_answer(&r, 500, "Oops! Something went wrong when sending the email");
    assert_eq!(c.phase(), Phase::SendFailed);
    assert_eq!(c.relays(), 1);
}

#[test]
fn unresolvable_address_is_denied_without_relay() {
    let mut c = Contact::new();
    match c.on_address(extract_address(Some("not-an-ip"))) {
        Action::Respond(r) => assert_answer(&r, 403, "Invalid Captcha"),
        _ => panic!("expected an answer"),
    }
    assert_eq!(c.relays(), 0);
    assert_eq!(c.phase(), Phase::Rejected);
}

#[test]
fn malformed_reply_to_after_verification_fails_without_relay() {
    let (c, a) = verified_contact(true, "visitor-at-example");
    match a {
        Action::Respond(r) => {
            assert_answer(&r, 500, "Oops! Something went wrong when sending the email")
        }
        _ => panic!("expected an answer"),
    }
    assert_eq!(c.relays(), 0);
    assert_eq!(c.phase(), Phase::SendFailed);
}

#[test]
fn verified_phase_depends_on_reply_to() {
    let mut c = Contact::new();
    let _ = c.on_address(Ok(ClientAddress::V4([127, 0, 0, 1])));
    let _ = c.on_verification(true, &config(), &submission("visitor@example.com"));
    assert_eq!(c.phase(), Phase::Verified);
    let mut d = Contact::new();
    let _ = d.on_address(Ok(ClientAddress::V4([127, 0, 0, 1])));
    let _ = d.on_verification(true, &config(), &submission("bad"));
    assert_eq!(d.phase(), Phase::SendFailed);
}

#[test]
fn respond_gives_each_answer() {
    assert_answer(&respond(Outcome::Accepted), 200, "Thanks for contacting me :)");
    assert_answer(&respond(Outcome::InvalidCaptcha), 403, "Invalid Captcha");
    assert_answer(
        &respond(Outcome::SendFailed),
        500,
        "Oops! Something went wrong when sending the email",
    );
}
