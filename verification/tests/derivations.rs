use tagged_values::addresses::IpAddress;
use tagged_values::addresses::IpAddressVariant;
use tagged_values::addresses::describe;
use tagged_values::addresses::route;
use tagged_values::coins::Coin;
use tagged_values::coins::UsState;
use tagged_values::coins::value_in_cents;
use tagged_values::messages::Color;
use tagged_values::messages::Message;
use tagged_values::messages::rgb_components;
use tagged_values::optional::OptionalValue;
use tagged_values::optional::plus_one;
use tagged_values::patterns::background_color;
use tagged_values::patterns::both_present;
use tagged_values::patterns::count_non_quarter;
use tagged_values::patterns::foo;
use tagged_values::patterns::parity_label;
use tagged_values::patterns::locate;
use tagged_values::patterns::AxisPosition;
use tagged_values::patterns::Point;
use tagged_values::patterns::quarter_region;

#[test]
fn coin_values_are_fixed() {
    assert_eq!(value_in_cents(Coin::Penny), 1);
    assert_eq!(value_in_cents(Coin::Nickel), 5);
    assert_eq!(value_in_cents(Coin::Dime), 10);
    assert_eq!(value_in_cents(Coin::Quarter(UsState::Alabama)), 25);
}

#[test]
fn quarter_value_ignores_region() {
    assert_eq!(value_in_cents(Coin::Quarter(UsState::Alabama)), 25);
    assert_eq!(value_in_cents(Coin::Quarter(UsState::Alaska)), 25);
}

#[test]
fn plus_one_passes_absence_through() {
    assert_eq!(plus_one(OptionalValue::Absent), OptionalValue::Absent);
}

#[test]
fn plus_one_increments_present_values() {
    assert_eq!(plus_one(OptionalValue::Present(5)), OptionalValue::Present(6));
    assert_eq!(plus_one(OptionalValue::Present(-1)), OptionalValue::Present(0));
    assert_eq!(
        plus_one(OptionalValue::Present(i32::MAX - 1)),
        OptionalValue::Present(i32::MAX)
    );
}

#[test]
fn describe_formats_v4_as_dotted_quad() {
    assert_eq!(describe(IpAddress::V4(127, 0, 0, 1)), "127.0.0.1");
}

#[test]
fn describe_handles_all_digit_widths() {
    assert_eq!(describe(IpAddress::V4(0, 0, 0, 0)), "0.0.0.0");
    assert_eq!(describe(IpAddress::V4(255, 255, 255, 255)), "255.255.255.255");
    assert_eq!(describe(IpAddress::V4(10, 42, 100, 9)), "10.42.100.9");
}

#[test]
fn describe_returns_v6_text_verbatim() {
    assert_eq!(describe(IpAddress::V6(String::from("::1"))), "::1");
    assert_eq!(describe(IpAddress::V6(String::from(""))), "");
}

#[test]
fn route_accepts_either_family() {
    route(IpAddressVariant::V4);
    route(IpAddressVariant::V6);
}

#[test]
fn message_codes_cover_every_variant() {
    assert_eq!(Message::Quit.call(), 0);
    assert_eq!(Message::Move { x: 3, y: -7 }.call(), 1);
    assert_eq!(Message::Write(String::from("Devil May Cry")).call(), 2);
    assert_eq!(Message::ChangeColor(Color::Rgb(0, 24, 72)).call(), 3);
}

#[test]
fn rgb_components_come_only_from_rgb_recolors() {
    assert_eq!(
        rgb_components(&Message::ChangeColor(Color::Rgb(0, 24, 72))),
        Some((0, 24, 72))
    );
    assert_eq!(rgb_components(&Message::ChangeColor(Color::Hsv(0, 24, 72))), None);
    assert_eq!(rgb_components(&Message::Quit), None);
    assert_eq!(rgb_components(&Message::Move { x: 1, y: 2 }), None);
    assert_eq!(rgb_components(&Message::Write(String::from("hi"))), None);
}

#[test]
fn tuple_arm_accepts_any_inner_values() {
    assert!(both_present(Some(1), Some(2)));
    assert!(both_present(Some(0), Some(i32::MIN)));
    assert!(!both_present(Some(1), None));
    assert!(!both_present(None, Some(2)));
    assert!(!both_present(None, None));
}

#[test]
fn guard_sends_even_to_first_arm_and_odd_past_it() {
    assert_eq!(parity_label(Some(4)), Some("even"));
    assert_eq!(parity_label(Some(3)), Some("odd"));
    assert_eq!(parity_label(Some(0)), Some("even"));
    assert_eq!(parity_label(Some(-3)), Some("odd"));
    assert_eq!(parity_label(Some(-4)), Some("even"));
    assert_eq!(parity_label(None), None);
}

#[test]
fn conditional_binding_equals_full_match() {
    assert_eq!(quarter_region(Coin::Quarter(UsState::Alaska)), Some(UsState::Alaska));
    assert_eq!(quarter_region(Coin::Penny), None);
    assert_eq!(quarter_region(Coin::Nickel), None);
    assert_eq!(quarter_region(Coin::Dime), None);
}

#[test]
fn counting_skips_quarters_only() {
    let mut count: u64 = 0;
    count_non_quarter(&Coin::Quarter(UsState::Alabama), &mut count);
    assert_eq!(count, 0);
    count_non_quarter(&Coin::Penny, &mut count);
    count_non_quarter(&Coin::Dime, &mut count);
    assert_eq!(count, 2);
}

#[test]
fn background_chain_tries_branches_top_down() {
    assert_eq!(background_color(Some("teal"), true, Ok(40)), "teal");
    assert_eq!(background_color(None, true, Ok(40)), "green");
    assert_eq!(background_color(None, false, Ok(34)), "purple");
    assert_eq!(background_color(None, false, Ok(30)), "orange");
    assert_eq!(background_color(None, false, Err(())), "blue");
}

#[test]
fn locate_reports_axes_and_lets_the_first_arm_win() {
    assert_eq!(locate(Point { x: 7, y: 0 }), AxisPosition::OnXAxis(7));
    assert_eq!(locate(Point { x: 0, y: -2 }), AxisPosition::OnYAxis(-2));
    assert_eq!(locate(Point { x: 1, y: 2 }), AxisPosition::Elsewhere(1, 2));
    assert_eq!(locate(Point { x: 0, y: 0 }), AxisPosition::OnXAxis(0));
}

#[test]
fn foo_uses_only_the_second_field() {
    assert_eq!(foo(&(3, 4)), 4);
    assert_eq!(foo(&(-100, 0)), 0);
}
