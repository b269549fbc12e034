use uestc_power_monitor::api::{bedroom_url, ApiResponse, PowerInfo};
use uestc_power_monitor::clock::{is_cooldown_over, LocalDate, LocalTime};
use uestc_power_monitor::event::NotificationEvent;
use uestc_power_monitor::format::{format_event, text_of, title_of, Message};
use uestc_power_monitor::text::{
    chars_of, decimal_string, has_suffix, magnitude_of, push_amount,
    push_decimal, push_padded, push_signed, push_timestamp, same_chars,
};

fn reading() -> PowerInfo {
    PowerInfo {
        code: 0,
        message: String::from("ok"),
        remaining_energy: 2691,
        remaining_money: 1444,
        meter_room_id: String::from("1001"),
        room_display_name: String::from("220407"),
        room_id: String::from("77"),
        building_id: String::from("22"),
        campus_id: String::from("1"),
        room_number: String::from("407"),
    }
}

fn amount_string(hundredths: i64) -> String {
    let mut out = String::new();
    push_amount(&mut out, hundredths);
    out
}

fn noon() -> LocalTime {
    LocalTime {
        epoch_millis: 1_709_640_000_000,
        date: LocalDate { year: 2024, month: 3, day: 5 },
        hour: 12,
        minute: 0,
        second: 7,
    }
}

#[test]
fn decimals_have_no_leading_zeros() {
    assert_eq!(decimal_string(0), "0");
    assert_eq!(decimal_string(7), "7");
    assert_eq!(decimal_string(10), "10");
    assert_eq!(decimal_string(12345), "12345");
    assert_eq!(decimal_string(u64::MAX), "18446744073709551615");
    assert_eq!(decimal_string(9), "9");
    assert_eq!(decimal_string(1234567890), "1234567890");
    let mut out = String::from("n=");
    push_decimal(&mut out, 42);
    assert_eq!(out, "n=42");
}

#[test]
fn padding_fills_with_zeros_and_never_cuts() {
    let mut out = String::new();
    push_padded(&mut out, 7, 2);
    assert_eq!(out, "07");
    let mut out = String::new();
    push_padded(&mut out, 123, 2);
    assert_eq!(out, "123");
    let mut out = String::new();
    push_padded(&mut out, 0, 4);
    assert_eq!(out, "0000");
    let mut out = String::new();
    push_padded(&mut out, 5, 0);
    assert_eq!(out, "5");
}

#[test]
fn signed_numbers_carry_their_sign_in_front() {
    let mut out = String::new();
    push_signed(&mut out, -2, 1);
    assert_eq!(out, "-2");
    let mut out = String::new();
    push_signed(&mut out, -44, 4);
    assert_eq!(out, "-0044");
    let mut out = String::new();
    push_signed(&mut out, 2024, 4);
    assert_eq!(out, "2024");
    assert_eq!(magnitude_of(i64::MIN), 9_223_372_036_854_775_808);
    assert_eq!(magnitude_of(-1), 1);
    assert_eq!(magnitude_of(0), 0);
    assert_eq!(magnitude_of(i64::MAX), 9_223_372_036_854_775_807);
}

#[test]
fn amounts_have_two_places() {
    assert_eq!(amount_string(1444), "14.44");
    assert_eq!(amount_string(500), "5.00");
    assert_eq!(amount_string(5), "0.05");
    assert_eq!(amount_string(0), "0.00");
    assert_eq!(amount_string(-5), "-0.05");
    assert_eq!(amount_string(-1230), "-12.30");
    assert_eq!(amount_string(i64::MIN), "-92233720368547758.08");
    assert_eq!(amount_string(i64::MAX), "92233720368547758.07");
    let mut out = String::from("Money: ");
    push_amount(&mut out, 2691);
    assert_eq!(out, "Money: 26.91");
}

#[test]
fn timestamps_are_zero_padded() {
    let mut out = String::new();
    push_timestamp(&mut out, &noon());
    assert_eq!(out, "2024-03-05 12:00:07");
    let early = LocalTime {
        epoch_millis: 0,
        date: LocalDate { year: 987, month: 11, day: 30 },
        hour: 0,
        minute: 9,
        second: 59,
    };
    let mut out = String::new();
    push_timestamp(&mut out, &early);
    assert_eq!(out, "0987-11-30 00:09:59");
    let before = LocalTime {
        epoch_millis: 0,
        date: LocalDate { year: -44, month: 3, day: 15 },
        hour: 23,
        minute: 0,
        second: 0,
    };
    let mut out = String::new();
    push_timestamp(&mut out, &before);
    assert_eq!(out, "-0044-03-15 23:00:00");
}

#[test]
fn texts_are_compared_by_their_characters() {
    let host = chars_of("printer.local");
    assert_eq!(host.len(), 13);
    assert_eq!(chars_of("héllo"), vec!['h', 'é', 'l', 'l', 'o']);
    assert!(has_suffix(&host, &chars_of(".local")));
    assert!(has_suffix(&host, &chars_of("")));
    assert!(has_suffix(&host, &host));
    assert!(!has_suffix(&host, &chars_of("local.")));
    assert!(!has_suffix(&chars_of("local"), &chars_of(".local")));
    assert!(same_chars(&chars_of("https"), &chars_of("https")));
    assert!(!same_chars(&chars_of("https"), &chars_of("http")));
    assert!(!same_chars(&chars_of("https"), &chars_of("httpx")));
    assert!(same_chars(&chars_of(""), &chars_of("")));
}

#[test]
fn every_alert_has_its_title() {
    assert_eq!(title_of(&NotificationEvent::LowBalance(reading())), "⚠️ [Low Power Warning]");
    assert_eq!(title_of(&NotificationEvent::Heartbeat(reading())), "ℹ️ [Daily Report]");
    assert_eq!(title_of(&NotificationEvent::LoginFailure(String::new())), "❌ [Login Failed]");
    assert_eq!(
        title_of(&NotificationEvent::ConsecutiveFetchFailures(String::new())),
        "❌ [Fetch Failed]"
    );
}

#[test]
fn alerts_about_readings_name_room_money_energy_and_time() {
    let message = format_event(&NotificationEvent::LowBalance(reading()), &noon(), "\n");
    assert_eq!(
        message,
        Message {
            title: String::from("⚠️ [Low Power Warning]"),
            body: String::from(
                "Room: 220407\nMoney: 14.44 CNY\nEnergy: 26.91 kWh\nTime: 2024-03-05 12:00:07"
            ),
        }
    );
    let message = format_event(&NotificationEvent::Heartbeat(reading()), &noon(), ", ");
    assert_eq!(message.title, "ℹ️ [Daily Report]");
    assert_eq!(
        message.body,
        "Room: 220407, Money: 14.44 CNY, Energy: 26.91 kWh, Time: 2024-03-05 12:00:07"
    );
}

#[test]
fn alerts_about_failures_name_the_error_and_the_time() {
    let event = NotificationEvent::LoginFailure(String::from("wrong password"));
    let message = format_event(&event, &noon(), "\n");
    assert_eq!(message.title, "❌ [Login Failed]");
    assert_eq!(message.body, "Error: wrong password\nTime: 2024-03-05 12:00:07");
    let event = NotificationEvent::ConsecutiveFetchFailures(String::from(
        "Failed to fetch data 3 times consecutively",
    ));
    let message = format_event(&event, &noon(), " | ");
    assert_eq!(message.title, "❌ [Fetch Failed]");
    assert_eq!(
        message.body,
        "Error: Failed to fetch data 3 times consecutively | Time: 2024-03-05 12:00:07"
    );
    assert_eq!(
        text_of(&message),
        "❌ [Fetch Failed]\nError: Failed to fetch data 3 times consecutively | Time: 2024-03-05 12:00:07"
    );
}

#[test]
fn copy_of_a_reading_equals_it() {
    let first = reading();
    let second = first.duplicate();
    assert_eq!(second, first);
    assert_eq!(second.room_display_name, "220407");
    assert_eq!(second.remaining_money, 1444);
}

#[test]
fn envelope_gives_up_its_payload() {
    let full = ApiResponse { error: 0, message: String::from("ok"), data: Some(reading()) };
    assert_eq!(full.into_data(), Some(reading()));
    let empty: ApiResponse<PowerInfo> =
        ApiResponse { error: 1, message: String::from("no session"), data: None };
    assert_eq!(empty.into_data(), None);
    assert_eq!(bedroom_url(), "https://online.uestc.edu.cn/site/bedroom");
}

#[test]
fn cooldown_is_measured_in_whole_minutes() {
    assert!(is_cooldown_over(None, 0, u64::MAX));
    assert!(is_cooldown_over(Some(1_000), 61_000, 1));
    assert!(!is_cooldown_over(Some(1_000), 60_999, 1));
    assert!(is_cooldown_over(Some(5), 5, 0));
    // A clock that was set back does not shorten the wait.
    assert!(!is_cooldown_over(Some(5), 4, 0));
    assert!(!is_cooldown_over(Some(i64::MIN), i64::MAX, u64::MAX));
    assert!(is_cooldown_over(Some(i64::MIN), i64::MAX, 1));
}
