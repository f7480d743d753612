use huecli::command::{dispatch, kelvin_fits, kelvin_to_mired, light_request, Action, Command, LightArgs, LightRequest, OnOff};
use huecli::settings::or_config;

fn no_args() -> LightArgs {
    LightArgs { turn: None, bri: None, hue: None, sat: None, ct: None }
}

#[test]
fn parse_on_off_words() {
    assert_eq!(OnOff::parse("on"), Ok(OnOff::On));
    assert_eq!(OnOff::parse("off"), Ok(OnOff::Off));
    assert_eq!(OnOff::parse("On"), Err("on or off is acceptable".to_string()));
    assert_eq!(OnOff::parse(""), Err("on or off is acceptable".to_string()));
    let parsed: Result<OnOff, String> = "off".parse();
    assert_eq!(parsed, Ok(OnOff::Off));
    let parsed: Result<OnOff, String> = "on".parse();
    assert_eq!(parsed, Ok(OnOff::On));
    let refused: Result<OnOff, String> = "On".parse();
    assert_eq!(refused, Err("on or off is acceptable".to_string()));
}

#[test]
fn cli_value_wins_over_file() {
    let cli = Some("10.0.0.5".to_string());
    assert_eq!(or_config(&cli, Some("10.0.0.9".to_string())), Some("10.0.0.5".to_string()));
    assert_eq!(or_config(&cli, None), Some("10.0.0.5".to_string()));
    assert_eq!(or_config(&None, Some("10.0.0.9".to_string())), Some("10.0.0.9".to_string()));
    assert_eq!(or_config(&None, None), None);
}

#[test]
fn only_brightness_is_set() {
    let args = LightArgs { bri: Some(100), ..no_args() };
    let r = light_request(&args).unwrap();
    assert_eq!(r, LightRequest { on: None, bri: Some(100), hue: None, sat: None, ct: None });
}

#[test]
fn every_field_is_carried() {
    let args = LightArgs { turn: Some(OnOff::Off), bri: Some(1), hue: Some(65535), sat: Some(254), ct: Some(6500) };
    let r = light_request(&args).unwrap();
    assert_eq!(r, LightRequest { on: Some(false), bri: Some(1), hue: Some(65535), sat: Some(254), ct: Some(1538) });
    let on = light_request(&LightArgs { turn: Some(OnOff::On), ..no_args() }).unwrap();
    assert_eq!(on.on, Some(true));
}

#[test]
fn kelvin_to_mired_rounds() {
    assert_eq!(kelvin_to_mired(2700), 3704);
    assert_eq!(kelvin_to_mired(10_000_000), 1);
    assert_eq!(kelvin_to_mired(20_000_001), 0);
    assert_eq!(kelvin_to_mired(153), 65359);
}

#[test]
fn kelvin_range_is_checked() {
    assert!(!kelvin_fits(0));
    assert!(!kelvin_fits(100));
    assert!(!kelvin_fits(152));
    assert!(kelvin_fits(153));
    assert!(kelvin_fits(u32::MAX));
    assert_eq!(light_request(&LightArgs { ct: Some(100), ..no_args() }), None);
    assert_eq!(light_request(&LightArgs { ct: Some(152), ..no_args() }), None);
    let r = light_request(&LightArgs { ct: Some(153), ..no_args() }).unwrap();
    assert_eq!(r.ct, Some(65359));
}

#[test]
fn zero_kelvin_is_refused() {
    assert_eq!(light_request(&LightArgs { ct: Some(0), ..no_args() }), None);
}

#[test]
fn dispatch_show_uses_file_values() {
    let cmd = Command::Show { bridge: None, user: Some("tok".to_string()), id: None };
    let a = dispatch(&cmd, Some("10.0.0.1".to_string()), Some("other".to_string()));
    assert_eq!(a, Action::ShowAll { bridge: "10.0.0.1".to_string(), user: "tok".to_string() });
    let cmd = Command::Show { bridge: Some("h".to_string()), user: None, id: Some(3) };
    let a = dispatch(&cmd, None, Some("u".to_string()));
    assert_eq!(a, Action::ShowOne { bridge: "h".to_string(), user: "u".to_string(), id: 3 });
}

#[test]
fn dispatch_without_target_reports_it() {
    let cmd = Command::Show { bridge: None, user: Some("tok".to_string()), id: None };
    assert_eq!(dispatch(&cmd, None, None), Action::MissingTarget);
    let cmd = Command::Light { bridge: Some("h".to_string()), user: None, id: 1, state: no_args() };
    assert_eq!(dispatch(&cmd, Some("x".to_string()), None), Action::MissingTarget);
}

#[test]
fn dispatch_light_builds_request() {
    let cmd = Command::Light { bridge: None, user: None, id: 7, state: LightArgs { ct: Some(2700), ..no_args() } };
    let a = dispatch(&cmd, Some("b".to_string()), Some("u".to_string()));
    let request = LightRequest { on: None, bri: None, hue: None, sat: None, ct: Some(3704) };
    assert_eq!(a, Action::SetLight { bridge: "b".to_string(), user: "u".to_string(), id: 7, request });
    let bad = Command::Light { bridge: None, user: None, id: 7, state: LightArgs { ct: Some(0), ..no_args() } };
    assert_eq!(dispatch(&bad, Some("b".to_string()), Some("u".to_string())), Action::BadColorTemperature);
}

#[test]
fn dispatch_discover_and_register() {
    assert_eq!(dispatch(&Command::Discover, None, None), Action::Discover);
    let cmd = Command::Register { bridge: None, device_type: "cli".to_string() };
    assert_eq!(
        dispatch(&cmd, Some("b".to_string()), None),
        Action::Register { bridge: None, device_type: "cli".to_string() }
    );
}
