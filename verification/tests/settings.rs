use appsync_messenger::settings::{ConstStr, Settings, SettingsReadError};

fn lines(texts: &[&str]) -> Vec<Result<String, String>> {
    texts.iter().map(|text| Ok(text.to_string())).collect()
}

const COMPLETE: [&str; 4] = [
    "APPSYNC_API_KEY=secret",
    "APPSYNC_HTTP_DOMAIN=example.com",
    "APPSYNC_WEBSOCKET_URL=wss://example.com/event/realtime",
    "APPSYNC_PUBLISH_URL=https://example.com/event",
];

#[test]
fn all_four_fields_make_the_settings() {
    let settings = Settings::from_lines(&lines(&COMPLETE)).unwrap();
    assert_eq!(settings.APPSYNC_HTTP_DOMAIN.as_str(), "example.com");
    assert_eq!(settings.APPSYNC_PUBLISH_URL.as_str(), "https://example.com/event");
    assert_eq!(settings.APPSYNC_API_KEY.as_str(), "secret");
    assert_eq!(settings.APPSYNC_WEBSOCKET_URL, ConstStr::new("wss://example.com/event/realtime"));
}

#[test]
fn value_takes_all_that_follows_the_first_equals_sign() {
    let mut texts = COMPLETE;
    texts[0] = "APPSYNC_API_KEY=a=b==c ";
    let settings = Settings::from_lines(&lines(&texts)).unwrap();
    assert_eq!(settings.APPSYNC_API_KEY.as_str(), "a=b==c ");
    texts[0] = "APPSYNC_API_KEY=";
    let settings = Settings::from_lines(&lines(&texts)).unwrap();
    assert_eq!(settings.APPSYNC_API_KEY.as_str(), "");
}

#[test]
fn first_missing_field_is_reported_in_the_order_of_the_fields() {
    assert_eq!(
        Settings::from_lines(&lines(&[])),
        Err(SettingsReadError::MissingField("APPSYNC_HTTP_DOMAIN".to_string()))
    );
    assert_eq!(
        Settings::from_lines(&lines(&COMPLETE[1..2])),
        Err(SettingsReadError::MissingField("APPSYNC_PUBLISH_URL".to_string()))
    );
    assert_eq!(
        Settings::from_lines(&lines(&[COMPLETE[1], COMPLETE[3]])),
        Err(SettingsReadError::MissingField("APPSYNC_API_KEY".to_string()))
    );
    assert_eq!(
        Settings::from_lines(&lines(&[COMPLETE[0], COMPLETE[1], COMPLETE[3]])),
        Err(SettingsReadError::MissingField("APPSYNC_WEBSOCKET_URL".to_string()))
    );
}

#[test]
fn second_value_for_a_field_is_refused() {
    let texts = [COMPLETE[0], "APPSYNC_API_KEY=other", "nonsense"];
    assert_eq!(
        Settings::from_lines(&lines(&texts)),
        Err(SettingsReadError::DuplicateField("APPSYNC_API_KEY".to_string()))
    );
}

#[test]
fn unknown_name_is_refused() {
    assert_eq!(
        Settings::from_lines(&lines(&["APPSYNC_REGION=eu"])),
        Err(SettingsReadError::UnknownField("APPSYNC_REGION".to_string()))
    );
    assert_eq!(
        Settings::from_lines(&lines(&[" APPSYNC_API_KEY=x"])),
        Err(SettingsReadError::UnknownField(" APPSYNC_API_KEY".to_string()))
    );
    assert_eq!(
        Settings::from_lines(&lines(&["=x"])),
        Err(SettingsReadError::UnknownField("".to_string()))
    );
}

#[test]
fn line_without_equals_sign_is_badly_formed() {
    assert_eq!(
        Settings::from_lines(&lines(&[COMPLETE[0], "APPSYNC_HTTP_DOMAIN example.com"])),
        Err(SettingsReadError::BadFormatting(
            "bad line formatting: \"APPSYNC_HTTP_DOMAIN example.com\"".to_string()
        ))
    );
    assert_eq!(
        Settings::from_lines(&lines(&[""])),
        Err(SettingsReadError::BadFormatting("bad line formatting: \"\"".to_string()))
    );
}

#[test]
fn line_that_could_not_be_read_ends_the_reading() {
    let mut all = lines(&COMPLETE[0..2]);
    all.push(Err("stream did not contain valid UTF-8".to_string()));
    all.push(Ok("nonsense".to_string()));
    assert_eq!(
        Settings::from_lines(&all),
        Err(SettingsReadError::BadFile("stream did not contain valid UTF-8".to_string()))
    );
}

#[test]
fn first_refused_line_wins() {
    let texts = ["nonsense", "APPSYNC_REGION=eu"];
    assert_eq!(
        Settings::from_lines(&lines(&texts)),
        Err(SettingsReadError::BadFormatting("bad line formatting: \"nonsense\"".to_string()))
    );
}

#[test]
fn line_parts_cut_at_the_first_equals_sign() {
    assert_eq!(Settings::line_parts("A=b"), Ok(("A".to_string(), "b".to_string())));
    assert_eq!(Settings::line_parts("A=b=c"), Ok(("A".to_string(), "b=c".to_string())));
    assert_eq!(Settings::line_parts("="), Ok(("".to_string(), "".to_string())));
    assert_eq!(
        Settings::line_parts("Ab"),
        Err(SettingsReadError::BadFormatting("bad line formatting: \"Ab\"".to_string()))
    );
}

#[test]
fn settings_errors_are_told_in_a_line() {
    assert_eq!(
        SettingsReadError::MissingField("F".to_string()).message(),
        "Field missing from env file: F"
    );
    assert_eq!(
        SettingsReadError::DuplicateField("F".to_string()).message(),
        "Duplicate field in env file: F"
    );
    assert_eq!(
        SettingsReadError::UnknownField("F".to_string()).message(),
        "Unknown field provided: F"
    );
    assert_eq!(
        SettingsReadError::BadFile("gone".to_string()).message(),
        "Error in reading file: gone"
    );
    assert_eq!(
        SettingsReadError::BadFormatting("bad".to_string()).message(),
        "Error in parsing file: bad"
    );
}
