use aog_core::sensors::get_value;
use aog_core::sensors::unavailable;

#[test]
fn co2_extracted_from_status_line() {
    let raw = "CO2: 412 HUM: 55 TOP_TANK_OVERFLOW: NONE";
    assert_eq!(get_value(raw, "co2"), "412");
}

#[test]
fn hum_extracted_from_status_line() {
    let raw = "CO2: 412 HUM: 55 TOP_TANK_OVERFLOW: NONE";
    assert_eq!(get_value(raw, "hum"), "55");
}

#[test]
fn overflow_flag_extracted() {
    let raw = "CO2: 412 HUM: 55 TOP_TANK_OVERFLOW: NONE";
    assert_eq!(get_value(raw, "t1_ovf"), "NONE");
}

#[test]
fn every_known_metric_missing_resolves_to_unavailable() {
    let raw = "OTHER: 1 NOISE: 2";
    let names = ["pm25", "pm_10", "co2", "tvoc", "hum", "temp", "ph", "t1_ovf", "t2_ovf"];
    for name in names {
        assert_eq!(get_value(raw, name), "unavailable");
    }
}

#[test]
fn every_known_metric_on_empty_line_is_unavailable() {
    let names = ["pm25", "pm_10", "co2", "tvoc", "hum", "temp", "ph", "t1_ovf", "t2_ovf"];
    for name in names {
        assert_eq!(get_value("", name), "unavailable");
    }
}

#[test]
fn unknown_metric_name_is_unavailable() {
    assert_eq!(get_value("CO2: 412", "nitrogen"), "unavailable");
}

#[test]
fn extra_and_reordered_fields_do_not_break_extraction() {
    let raw = "JUNK: 9 HUM: 44 EXTRA TOKENS CO2: 500";
    assert_eq!(get_value(raw, "co2"), "500");
    assert_eq!(get_value(raw, "hum"), "44");
}

#[test]
fn key_without_value_is_unavailable() {
    assert_eq!(get_value("HUM: 55 CO2:", "co2"), "unavailable");
}

#[test]
fn first_occurrence_of_key_wins() {
    assert_eq!(get_value("CO2: 1 CO2: 2", "co2"), "1");
}

#[test]
fn whitespace_variants_are_tolerated() {
    assert_eq!(get_value("  CO2:\t412\r\n", "co2"), "412");
}

#[test]
fn unavailable_marker_is_the_documented_word() {
    assert_eq!(unavailable(), "unavailable");
}
