use nv2_engine::egs::{
    reports_enabled, start_state, tick_state, EgsConfig, EosAuthCredentialType, EosLoginStatus,
    EosResult, EosState, EpicLaunchArgs, SdkProbe, env_or,
};

#[test]
fn epic_args_parsing() {
    let args: Vec<String> = vec![
        "nv2_engine.exe".into(),
        "-EpicPortal".into(),
        "-EpicApp=NV20".into(),
        "-EpicEnv=Prod".into(),
        "-EpicLocale=en-US".into(),
        "-AUTH_LOGIN=unused".into(),
        "-AUTH_PASSWORD=exchange_code_abc".into(),
        "-AUTH_TYPE=exchangecode".into(),
        "-epicsandboxid".into(),
        "sandbox123".into(),
    ];
    let parsed = EpicLaunchArgs::from_args(&args);
    assert!(parsed.launched_by_epic);
    assert_eq!(parsed.app_name.as_deref(), Some("NV20"));
    assert_eq!(parsed.exchange_code.as_deref(), Some("exchange_code_abc"));
    assert_eq!(parsed.auth_type.as_deref(), Some("exchangecode"));
    assert_eq!(parsed.sandbox_id.as_deref(), Some("sandbox123"));
    assert!(parsed.has_exchange_code());
}

#[test]
fn epic_args_absent_when_not_launched_by_egl() {
    let parsed = EpicLaunchArgs::from_args(&["nv2_engine.exe".to_string()]);
    assert!(!parsed.launched_by_epic);
    assert!(!parsed.has_exchange_code());
}

#[test]
fn config_complete_requires_all_ids() {
    let mut c = EgsConfig::default();
    assert!(!c.complete());
    c.product_id = Some("p".into());
    c.sandbox_id = Some("s".into());
    c.deployment_id = Some("d".into());
    assert!(!c.complete());
    c.client_id = Some("c".into());
    assert!(c.complete());
}

#[test]
fn label_strings_exist() {
    for s in [
        EosState::Disabled,
        EosState::WaitingForConfig,
        EosState::Connecting,
        EosState::Connected,
        EosState::Error,
    ] {
        assert!(!s.label().is_empty());
    }
}

#[test]
fn labels_name_each_state() {
    assert_eq!(EosState::Disabled.label(), "EOS: disabled (keyless)");
    assert_eq!(EosState::Connected.label(), "EOS: connected");
    assert_eq!(EosState::Error.label(), "EOS: error (see log)");
}

#[test]
fn epic_args_value_from_next_argument_is_consumed() {
    // "-EpicApp" takes "-EpicPortal" as its value, so the portal flag is not set.
    let args: Vec<String> = vec!["-EpicApp".into(), "-EpicPortal".into()];
    let parsed = EpicLaunchArgs::from_args(&args);
    assert_eq!(parsed.app_name.as_deref(), Some("-EpicPortal"));
    assert!(!parsed.launched_by_epic);
}

#[test]
fn epic_args_value_missing_at_end() {
    let args: Vec<String> = vec!["-EpicGames".into(), "-epicproductid".into()];
    let parsed = EpicLaunchArgs::from_args(&args);
    assert!(parsed.launched_by_epic);
    assert_eq!(parsed.product_id, None);
}

#[test]
fn epic_args_keys_are_case_insensitive_and_split_at_first_eq() {
    let args: Vec<String> = vec![
        "-EPICDEPLOYMENT=a=b".into(),
        "-AuthPassword=".into(),
        "-EpicProduct".into(),
        "prod".into(),
        "-epicapp=first".into(),
        "-EpicAppId=second".into(),
    ];
    let parsed = EpicLaunchArgs::from_args(&args);
    assert_eq!(parsed.deployment_id.as_deref(), Some("a=b"));
    assert_eq!(parsed.exchange_code.as_deref(), Some(""));
    assert!(!parsed.has_exchange_code());
    assert_eq!(parsed.product_id.as_deref(), Some("prod"));
    assert_eq!(parsed.app_name.as_deref(), Some("second"));
    assert!(!parsed.launched_by_epic);
}

#[test]
fn epic_portal_with_inline_value_still_counts() {
    let parsed = EpicLaunchArgs::from_args(&["-EpicPortal=yes".to_string(), "x".to_string()]);
    assert!(parsed.launched_by_epic);
    assert_eq!(parsed.app_name, None);
}

#[test]
fn config_load_prefers_environment() {
    let env = EgsConfig {
        product_id: Some("env-product".into()),
        sandbox_id: Some(String::new()),
        deployment_id: None,
        client_id: Some("env-client".into()),
        client_secret: None,
    };
    let file = EgsConfig {
        product_id: Some("file-product".into()),
        sandbox_id: Some("file-sandbox".into()),
        deployment_id: Some("file-deploy".into()),
        client_id: None,
        client_secret: Some("file-secret".into()),
    };
    let c = EgsConfig::load(env, Some(file));
    assert_eq!(c.product_id.as_deref(), Some("env-product"));
    assert_eq!(c.sandbox_id.as_deref(), Some("file-sandbox"));
    assert_eq!(c.deployment_id.as_deref(), Some("file-deploy"));
    assert_eq!(c.client_id.as_deref(), Some("env-client"));
    assert_eq!(c.client_secret.as_deref(), Some("file-secret"));
    assert!(c.complete());
}

#[test]
fn config_load_without_file_keeps_only_environment() {
    let env = EgsConfig { product_id: Some("p".into()), ..EgsConfig::default() };
    let c = EgsConfig::load(env, None);
    assert_eq!(c.product_id.as_deref(), Some("p"));
    assert_eq!(c.sandbox_id, None);
    assert!(!c.complete());
}

#[test]
fn env_or_skips_empty_values() {
    assert_eq!(env_or(Some(String::new()), Some("f".into())).as_deref(), Some("f"));
    assert_eq!(env_or(Some("e".into()), Some("f".into())).as_deref(), Some("e"));
    assert_eq!(env_or(None, None), None);
}

#[test]
fn complete_rejects_empty_ids() {
    let c = EgsConfig {
        product_id: Some("p".into()),
        sandbox_id: Some("s".into()),
        deployment_id: Some("d".into()),
        client_id: Some(String::new()),
        client_secret: None,
    };
    assert!(!c.complete());
}

#[test]
fn bridge_start_states() {
    assert_eq!(start_state(false, SdkProbe::Loaded, true, true, true), EosState::Disabled);
    assert_eq!(start_state(true, SdkProbe::Missing, true, true, true), EosState::Disabled);
    assert_eq!(start_state(true, SdkProbe::MissingSymbol, true, true, true), EosState::Disabled);
    assert_eq!(start_state(true, SdkProbe::Loaded, false, true, true), EosState::WaitingForConfig);
    assert_eq!(start_state(true, SdkProbe::Loaded, true, false, true), EosState::Error);
    assert_eq!(start_state(true, SdkProbe::Loaded, true, true, true), EosState::Connecting);
    assert_eq!(start_state(true, SdkProbe::Loaded, true, true, false), EosState::Connected);
}

#[test]
fn bridge_tick_transitions() {
    let logged_in = EosLoginStatus::LoggedIn.code();
    assert_eq!(logged_in, 2);
    assert_eq!(tick_state(EosState::Connecting, Some(logged_in), None), EosState::Connected);
    assert_eq!(tick_state(EosState::Connecting, Some(0), None), EosState::Connecting);
    assert_eq!(tick_state(EosState::Connecting, Some(logged_in), Some(3)), EosState::Error);
    assert_eq!(tick_state(EosState::Connecting, None, Some(0)), EosState::Connecting);
    assert_eq!(tick_state(EosState::Connected, None, Some(5)), EosState::Connected);
    assert_eq!(tick_state(EosState::Disabled, Some(logged_in), None), EosState::Disabled);
}

#[test]
fn reports_only_when_connected() {
    assert!(reports_enabled(EosState::Connected));
    assert!(!reports_enabled(EosState::Connecting));
    assert!(!reports_enabled(EosState::Disabled));
}

#[test]
fn sdk_codes() {
    assert_eq!(EosResult::Success.code(), 0);
    assert_eq!(EosResult::Other.code(), 5);
    assert_eq!(EosAuthCredentialType::ExchangeCode.code(), 1);
    assert_eq!(EosAuthCredentialType::ExternalAuth.code(), 7);
    assert_eq!(EosLoginStatus::NotLoggedIn.code(), 0);
}

#[test]
fn disabled_bridge_without_epic_launch() {
    let args = EpicLaunchArgs::default();
    for probe in [SdkProbe::Missing, SdkProbe::MissingSymbol, SdkProbe::Loaded] {
        let state = start_state(args.launched_by_epic, probe, true, true, args.has_exchange_code());
        assert_eq!(state, EosState::Disabled);
    }
}

#[test]
fn cloned_config_and_args_keep_their_values() {
    let mut c = EgsConfig::empty();
    c.product_id = Some("p".into());
    let d = c.clone();
    assert_eq!(d.product_id.as_deref(), Some("p"));
    let args = EpicLaunchArgs::from_args(&["-EpicPortal".to_string()]);
    let copy = args.clone();
    assert!(copy.launched_by_epic);
}
