use hddwarn::config::Config;
use hddwarn::mail::{plan_mail, prepare_mail, subject_line, valid_mailbox, AddressRole, MailError, MailRequest};

fn sample_config() -> Config {
    Config {
        mailserver: "mail.example.org".to_string(),
        port: 2525,
        sendmail: "reports@example.org".to_string(),
        password: "s3cret".to_string(),
        recipient: "Ops Team <ops@example.org>".to_string(),
    }
}

fn expected_request(subject: &str, body: &str) -> MailRequest {
    MailRequest {
        server: "mail.example.org".to_string(),
        port: 2525,
        sender: "reports@example.org".to_string(),
        password: "s3cret".to_string(),
        recipient: "Ops Team <ops@example.org>".to_string(),
        subject: subject.to_string(),
        body: body.to_string(),
    }
}

#[test]
fn subject_is_fixed() {
    assert_eq!(subject_line(), "Disk Space Report");
}

#[test]
fn plan_fills_the_request_from_the_config() {
    let plan = plan_mail(&sample_config(), "Disk Space Report", "Servername: h\n", true, true);
    assert_eq!(plan, Ok(expected_request("Disk Space Report", "Servername: h\n")));
}

#[test]
fn plan_refuses_a_bad_sender_first() {
    let config = sample_config();
    assert_eq!(
        plan_mail(&config, "s", "b", false, true),
        Err(MailError::InvalidAddress(AddressRole::Sender))
    );
    assert_eq!(
        plan_mail(&config, "s", "b", false, false),
        Err(MailError::InvalidAddress(AddressRole::Sender))
    );
    assert_eq!(
        plan_mail(&config, "s", "b", true, false),
        Err(MailError::InvalidAddress(AddressRole::Recipient))
    );
}

#[test]
fn plan_refuses_an_incomplete_config_where_both_addresses_parse() {
    let mut config = sample_config();
    config.password.clear();
    assert_eq!(plan_mail(&config, "s", "b", true, true), Err(MailError::IncompleteConfig));
    let mut config = sample_config();
    config.mailserver.clear();
    assert_eq!(plan_mail(&config, "s", "b", true, true), Err(MailError::IncompleteConfig));
}

#[test]
fn plan_reports_a_bad_address_before_an_empty_field() {
    let mut config = sample_config();
    config.password.clear();
    config.mailserver.clear();
    assert_eq!(
        plan_mail(&config, "s", "b", false, false),
        Err(MailError::InvalidAddress(AddressRole::Sender))
    );
    assert_eq!(
        plan_mail(&config, "s", "b", false, true),
        Err(MailError::InvalidAddress(AddressRole::Sender))
    );
    assert_eq!(
        plan_mail(&config, "s", "b", true, false),
        Err(MailError::InvalidAddress(AddressRole::Recipient))
    );
}

#[test]
fn reasons_are_worded() {
    assert_eq!(MailError::IncompleteConfig.reason(), "the configuration is incomplete");
    assert_eq!(
        MailError::InvalidAddress(AddressRole::Sender).reason(),
        "the sender address is not valid"
    );
    assert_eq!(
        MailError::InvalidAddress(AddressRole::Recipient).reason(),
        "the recipient address is not valid"
    );
}

#[test]
fn mailbox_parser_accepts_addresses() {
    assert!(valid_mailbox("john.doe@example.com"));
    assert!(valid_mailbox("youremail@example.com"));
    assert!(valid_mailbox("John Doe <john.doe@example.com>"));
    assert!(valid_mailbox("  user@example.com  "));
}

#[test]
fn mailbox_parser_refuses_what_is_no_address() {
    assert!(!valid_mailbox(""));
    assert!(!valid_mailbox("not an address"));
    assert!(!valid_mailbox("missing-at.example.com"));
    assert!(!valid_mailbox("user@"));
    assert!(!valid_mailbox("@example.com"));
    assert!(!valid_mailbox("a@example.com, b@example.com"));
    assert!(!valid_mailbox("John Doe <john.doe@example.com"));
}

#[test]
fn mailbox_parser_agrees_with_lettre() {
    for text in ["a@b.c", "x", "", "Name <n@example.org>", "n@[127.0.0.1]", "a b@c.d", "é@example.com"] {
        assert_eq!(
            valid_mailbox(text),
            text.parse::<lettre::message::Mailbox>().is_ok(),
            "address {:?}",
            text
        );
    }
}

#[test]
fn prepare_hands_out_a_request_for_good_addresses() {
    let plan = prepare_mail(&sample_config(), subject_line(), "Servername: h\n");
    assert_eq!(plan, Ok(expected_request("Disk Space Report", "Servername: h\n")));
}

#[test]
fn prepare_reports_a_malformed_sender() {
    let mut config = sample_config();
    config.sendmail = "reports.example.org".to_string();
    assert_eq!(
        prepare_mail(&config, "s", "b"),
        Err(MailError::InvalidAddress(AddressRole::Sender))
    );
}

#[test]
fn prepare_reports_a_malformed_recipient() {
    let mut config = sample_config();
    config.recipient = "nobody".to_string();
    assert_eq!(
        prepare_mail(&config, "s", "b"),
        Err(MailError::InvalidAddress(AddressRole::Recipient))
    );
}

#[test]
fn prepare_reports_an_incomplete_config() {
    let mut config = sample_config();
    config.password.clear();
    assert_eq!(prepare_mail(&config, "s", "b"), Err(MailError::IncompleteConfig));
    let mut config = sample_config();
    config.mailserver.clear();
    assert_eq!(prepare_mail(&config, "s", "b"), Err(MailError::IncompleteConfig));
}

#[test]
fn prepare_reports_an_empty_address_as_invalid() {
    let mut config = sample_config();
    config.recipient.clear();
    assert_eq!(
        prepare_mail(&config, "s", "b"),
        Err(MailError::InvalidAddress(AddressRole::Recipient))
    );
    let mut config = sample_config();
    config.sendmail.clear();
    assert_eq!(
        prepare_mail(&config, "s", "b"),
        Err(MailError::InvalidAddress(AddressRole::Sender))
    );
    let mut config = sample_config();
    config.sendmail.clear();
    config.recipient.clear();
    assert_eq!(
        prepare_mail(&config, "s", "b"),
        Err(MailError::InvalidAddress(AddressRole::Sender))
    );
}

#[test]
fn prepare_reports_a_malformed_address_beside_an_empty_field() {
    let mut config = sample_config();
    config.sendmail = "not-an-address".to_string();
    config.password.clear();
    assert_eq!(
        prepare_mail(&config, "s", "b"),
        Err(MailError::InvalidAddress(AddressRole::Sender))
    );
    let mut config = sample_config();
    config.recipient = "nobody".to_string();
    config.mailserver.clear();
    assert_eq!(
        prepare_mail(&config, "s", "b"),
        Err(MailError::InvalidAddress(AddressRole::Recipient))
    );
}

#[test]
fn placeholder_config_would_be_sent() {
    let plan = prepare_mail(&Config::default(), "s", "b");
    assert!(plan.is_ok());
}
