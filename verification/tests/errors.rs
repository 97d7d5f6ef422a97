use wolfline::wolfline::WolfLineError;

#[test]
fn a_parse_failure_becomes_a_serde_error() {
    let failure = serde_json::from_str::<u32>("not json").unwrap_err();
    let text = failure.to_string();
    let error = WolfLineError::from(failure);
    match error {
        WolfLineError::Serde(inner) => assert_eq!(inner.to_string(), text),
        other => panic!("expected a serde error, got {:?}", other),
    }
}

#[test]
fn a_transport_failure_becomes_a_reqwest_error() {
    let failure = reqwest::Client::new().get("no scheme, no host").build().unwrap_err();
    assert!(failure.is_builder());
    let error = WolfLineError::from(failure);
    match error {
        WolfLineError::Reqwest(inner) => assert!(inner.is_builder()),
        other => panic!("expected a reqwest error, got {:?}", other),
    }
}

#[test]
fn question_mark_converts_a_parse_failure() {
    fn parse(text: &str) -> Result<u32, WolfLineError> {
        Ok(serde_json::from_str::<u32>(text)?)
    }
    assert!(matches!(parse("7"), Ok(7)));
    assert!(matches!(parse("seven"), Err(WolfLineError::Serde(_))));
}
