use thermostat::platform::linux::parse_temp;
use thermostat::uom::temp::{Temperature, C};

fn celsius(degrees: f32) -> Temperature<C> {
    Temperature::in_c((degrees * 10.0) as i32)
}

#[test]
fn parse_valid_temp() {
    let temp_str = "Temp 229, Humidity 345";

    assert!(parse_temp(temp_str.to_string()) == Some(celsius(22.9).to_f()));
}

#[test]
fn parse_invalid_temp() {
    let temp_str = "Temp229, Humidity 345";

    assert!(parse_temp(temp_str.to_string()) == None);
}

#[test]
fn parsed_temperature_is_in_fahrenheit_tenths() {
    assert_eq!(parse_temp("Temp 229, Humidity 345".to_string()).unwrap().0, 732);
    assert_eq!(parse_temp("Temp 0, Humidity 0".to_string()).unwrap().0, 320);
    assert_eq!(parse_temp("Temp 1000, x".to_string()).unwrap().0, 2120);
    assert_eq!(parse_temp("Temp 007, x".to_string()).unwrap().0, 332);
}

#[test]
fn parsed_temperature_may_have_a_sign() {
    assert_eq!(parse_temp("Temp -400, Humidity 345".to_string()).unwrap().0, -400);
    assert_eq!(parse_temp("Temp +229, Humidity 345".to_string()).unwrap().0, 732);
    assert_eq!(parse_temp("Temp -1, x".to_string()).unwrap().0, 318);
    assert!(parse_temp("Temp -, x".to_string()).is_none());
    assert!(parse_temp("Temp +, x".to_string()).is_none());
    assert!(parse_temp("Temp +-5, x".to_string()).is_none());
    assert!(parse_temp("Temp --5, x".to_string()).is_none());
}

#[test]
fn parsed_temperature_stops_where_temperatures_stop() {
    assert_eq!(parse_temp("Temp 32767, x".to_string()).unwrap().0, 32767);
    assert_eq!(parse_temp("Temp 99999, x".to_string()).unwrap().0, 32767);
    assert_eq!(parse_temp("Temp 100000, x".to_string()).unwrap().0, 32767);
    assert_eq!(parse_temp("Temp 99999999999999999999999999, x".to_string()).unwrap().0, 32767);
    assert_eq!(parse_temp("Temp -99999999999999999999999999, x".to_string()).unwrap().0, -32768);
    assert_eq!(parse_temp("Temp 18026, x".to_string()).unwrap().0, 32766);
    assert_eq!(parse_temp("Temp 18027, x".to_string()).unwrap().0, 32767);
    assert_eq!(parse_temp("Temp -18382, x".to_string()).unwrap().0, -32767);
    assert_eq!(parse_temp("Temp -18383, x".to_string()).unwrap().0, -32768);
}

#[test]
fn line_without_comma_and_space_has_no_temperature() {
    assert!(parse_temp("".to_string()).is_none());
    assert!(parse_temp("Temp 229".to_string()).is_none());
    assert!(parse_temp("Temp 229,Humidity 345".to_string()).is_none());
    assert!(parse_temp("Temp 229 ,Humidity 345".to_string()).is_none());
    assert!(parse_temp(",".to_string()).is_none());
    assert!(parse_temp(", ".to_string()).is_none());
}

#[test]
fn line_without_a_number_has_no_temperature() {
    assert!(parse_temp("Temp , Humidity 345".to_string()).is_none());
    assert!(parse_temp("Temp abc, Humidity 345".to_string()).is_none());
    assert!(parse_temp("Temp 22.9, Humidity 345".to_string()).is_none());
    assert!(parse_temp("Temp 22 9, Humidity 345".to_string()).is_none());
    assert!(parse_temp("Temp  229, Humidity 345".to_string()).is_none());
    assert!(parse_temp("Temp 229 , Humidity 345".to_string()).is_none());
    assert!(parse_temp("Temp २२९, Humidity 345".to_string()).is_none());
}

#[test]
fn first_space_and_first_separator_count() {
    assert_eq!(parse_temp(" 229, Humidity 345, Temp 100, x".to_string()).unwrap().0, 732);
    assert_eq!(parse_temp("Température 229, x".to_string()).unwrap().0, 732);
    assert_eq!(parse_temp("T 229, , ".to_string()).unwrap().0, 732);
    // the space of the separator is no space before a value
    assert!(parse_temp("229, Humidity 345".to_string()).is_none());
    assert!(parse_temp("Temp,229, Humidity 345".to_string()).is_none());
}
