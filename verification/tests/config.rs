use hddwarn::config::{config_file_name, load_config, Config, ConfigRead};

fn sample_config() -> Config {
    Config {
        mailserver: "mail.example.org".to_string(),
        port: 2525,
        sendmail: "reports@example.org".to_string(),
        password: "s3cret".to_string(),
        recipient: "ops@example.org".to_string(),
    }
}

#[test]
fn placeholder_values() {
    let config = Config::default();
    assert_eq!(config.mailserver, "smtp.example.com");
    assert_eq!(config.port, 587);
    assert_eq!(config.sendmail, "youremail@example.com");
    assert_eq!(config.password, "yourpassword");
    assert_eq!(config.recipient, "john.doe@example.com");
    assert!(config.is_complete());
}

#[test]
fn file_name_is_fixed() {
    assert_eq!(config_file_name(), "config.json");
}

#[test]
fn missing_and_malformed_files_give_no_config() {
    assert_eq!(load_config(ConfigRead::Missing), None);
    assert_eq!(load_config(ConfigRead::Malformed), None);
    assert_eq!(load_config(ConfigRead::Missing), load_config(ConfigRead::Malformed));
}

#[test]
fn parsed_config_is_kept_field_for_field() {
    let loaded = load_config(ConfigRead::Parsed(sample_config())).unwrap();
    assert_eq!(loaded, sample_config());
    assert_eq!(loaded.mailserver, "mail.example.org");
    assert_eq!(loaded.port, 2525);
    assert_eq!(loaded.sendmail, "reports@example.org");
    assert_eq!(loaded.password, "s3cret");
    assert_eq!(loaded.recipient, "ops@example.org");
}

#[test]
fn placeholder_survives_loading() {
    assert_eq!(load_config(ConfigRead::Parsed(Config::default())), Some(Config::default()));
}

#[test]
fn any_empty_text_field_makes_a_config_incomplete() {
    assert!(sample_config().is_complete());
    let mut c = sample_config();
    c.mailserver.clear();
    assert!(!c.is_complete());
    let mut c = sample_config();
    c.sendmail.clear();
    assert!(!c.is_complete());
    let mut c = sample_config();
    c.password.clear();
    assert!(!c.is_complete());
    let mut c = sample_config();
    c.recipient.clear();
    assert!(!c.is_complete());
    let mut c = sample_config();
    c.port = 0;
    assert!(c.is_complete());
}
