use stelliberty_service::overrides::{
    ApplyOverridesRequest, ApplyOverridesResponse, DownloadOverrideResponse, OverrideConfig,
    OverrideFormat, OverrideStep, ParseSubscriptionRequest,
};

fn request() -> ApplyOverridesRequest {
    ApplyOverridesRequest {
        base_config_content: "proxies: []".to_string(),
        overrides: vec![OverrideConfig {
            id: "o1".to_string(),
            name: "rules".to_string(),
            format: OverrideFormat::Yaml,
            content: "rules: []".to_string(),
        }],
    }
}

#[test]
fn apply_overrides_steps() {
    match request().handle(Err("no engine".to_string()), Ok("x".to_string())) {
        OverrideStep::Respond(r) => {
            assert!(!r.success);
            assert_eq!(r.error_message, "failed to set up the override processor: no engine");
        }
        _ => panic!("expected a response"),
    }
    match request().handle(Ok(()), Err("bad base64".to_string())) {
        OverrideStep::Respond(r) => {
            assert!(!r.success);
            assert_eq!(r.error_message, "failed to parse the subscription: bad base64");
            assert!(r.result_config.is_empty());
        }
        _ => panic!("expected a response"),
    }
    match request().handle(Ok(()), Ok("parsed".to_string())) {
        OverrideStep::Apply { config, overrides } => {
            assert_eq!(config, "parsed");
            assert_eq!(overrides.len(), 1);
            assert_eq!(overrides[0].id, "o1");
        }
        _ => panic!("expected Apply"),
    }
}

#[test]
fn apply_results() {
    let ok = ApplyOverridesResponse::from_applied(Ok("final".to_string()));
    assert!(ok.success);
    assert_eq!(ok.result_config, "final");
    assert_eq!(ok.logs, vec!["overrides applied".to_string()]);
    let err = ApplyOverridesResponse::from_applied(Err("script error".to_string()));
    assert!(!err.success);
    assert_eq!(err.error_message, "script error");
}

#[test]
fn parse_and_download_responses() {
    let req = ParseSubscriptionRequest { content: "ss://...".to_string() };
    let r = req.handle(Ok("proxies: []".to_string()));
    assert!(r.success);
    assert_eq!(r.parsed_config, "proxies: []");
    let r = ParseSubscriptionRequest { content: String::new() }.handle(Err("empty".to_string()));
    assert!(!r.success);
    assert_eq!(r.error_message, "empty");
    let d = DownloadOverrideResponse::from_download(Err("404".to_string()));
    assert!(!d.success);
    assert_eq!(d.error_message, Some("404".to_string()));
    let d = DownloadOverrideResponse::from_download(Ok("x: 1".to_string()));
    assert_eq!(d.content, "x: 1");
}
