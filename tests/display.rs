use huecli::render::{light_detail, lights_table, mired_to_kelvin, name_width, show_num, show_text, LightInfo};
use huecli::text::{decimal_string, joined, padded_left, padded_right};

fn light(name: &str) -> LightInfo {
    LightInfo {
        name: name.to_string(),
        on: false,
        bri: 0,
        hue: None,
        sat: None,
        ct: None,
        alert: "none".to_string(),
        effect: None,
        colormode: None,
        xy: None,
        reachable: false,
    }
}

fn full(name: &str) -> LightInfo {
    LightInfo {
        name: name.to_string(),
        on: true,
        bri: 254,
        hue: Some(1000),
        sat: Some(200),
        ct: Some(370),
        alert: "select".to_string(),
        effect: Some("colorloop".to_string()),
        colormode: Some("ct".to_string()),
        xy: Some("(0.3, 0.4)".to_string()),
        reachable: true,
    }
}

#[test]
fn name_width_is_longest_name() {
    let lights = vec![(1, light("ab")), (2, light("kitchen")), (3, light("hal"))];
    assert_eq!(name_width(&lights), 7);
    assert_eq!(name_width(&Vec::new()), 4);
    assert_eq!(name_width(&vec![(1, light("a"))]), 4);
}

#[test]
fn table_of_lights() {
    let lights = vec![(1, full("ab")), (2, light("kitchen")), (12, light("hal"))];
    let lines = lights_table(&lights);
    assert_eq!(
        lines,
        vec![
            "id name    on  bri hue   sat ct    colormode xy".to_string(),
            " 1 ab      on  254  1000 200 2703K ct        (0.3, 0.4)".to_string(),
            " 2 kitchen off   0 N/A   N/A N/A K N/A       N/A".to_string(),
            "12 hal     off   0 N/A   N/A N/A K N/A       N/A".to_string(),
        ]
    );
}

#[test]
fn empty_table_has_header_only() {
    assert_eq!(lights_table(&Vec::new()), vec!["id name on  bri hue   sat ct    colormode xy".to_string()]);
}

#[test]
fn detail_of_light_with_absent_fields() {
    let mut l = light("desk");
    l.on = true;
    l.bri = 10;
    l.sat = Some(5);
    l.ct = Some(250);
    let lines = light_detail(3, &l);
    let expected: Vec<String> = [
        "id:  3",
        "name: desk",
        "state:",
        "    on: true",
        "    bri:  10",
        "    hue: N/A  ",
        "    sat:   5",
        "    effect: N/A",
        "    ct: 4000K",
        "    alert: none",
        "    colormode: N/A      ",
        "    xy: N/A",
        "    reachable: false",
    ]
    .iter()
    .map(|s| s.to_string())
    .collect();
    assert_eq!(lines, expected);
}

#[test]
fn detail_of_full_light() {
    let lines = light_detail(15, &full("lamp"));
    assert_eq!(lines[0], "id: 15");
    assert_eq!(lines[3], "    on: true");
    assert_eq!(lines[5], "    hue:  1000");
    assert_eq!(lines[7], "    effect: colorloop");
    assert_eq!(lines[8], "    ct: 2703K");
    assert_eq!(lines[9], "    alert: select");
    assert_eq!(lines[10], "    colormode: ct       ");
    assert_eq!(lines[11], "    xy: (0.3, 0.4)");
    assert_eq!(lines[12], "    reachable: true");
}

#[test]
fn color_temperature_is_not_a_round_trip() {
    let mired = huecli::command::kelvin_to_mired(2700);
    assert_eq!(mired, 3704);
    assert_eq!(mired_to_kelvin(mired), Some(270));
    assert_ne!(mired_to_kelvin(mired), Some(2700));
    assert_eq!(mired_to_kelvin(153), Some(6536));
    assert_eq!(mired_to_kelvin(0), None);
}

#[test]
fn cells_and_numbers() {
    assert_eq!(decimal_string(0), "0");
    assert_eq!(decimal_string(1234567890), "1234567890");
    assert_eq!(decimal_string(u64::MAX), "18446744073709551615");
    assert_eq!(padded_left("7", 3), "  7");
    assert_eq!(padded_right("ab", 4), "ab  ");
    assert_eq!(padded_right("long", 2), "long");
    assert_eq!(show_num(None, 5), "N/A  ");
    assert_eq!(show_num(Some(42), 5), "   42");
    assert_eq!(show_text(&None, 0), "N/A");
    assert_eq!(show_text(&Some("xy".to_string()), 4), "xy  ");
    assert_eq!(joined(&vec!["a".to_string(), "".to_string(), "b".to_string()]), "a  b");
    assert_eq!(joined(&Vec::new()), "");
}
