use sysdash::events::InputEvent;
use sysdash::events::KeyActions;
use sysdash::events::KeyInput;
use sysdash::events::KeyPressHandler;
use sysdash::events::translate_key;
use sysdash::temp::TEMP_SENTINEL;
use sysdash::temp::to_celsius;
use sysdash::temp::to_fahrenheit;

#[test]
fn fahrenheit_of_known_values() {
    // 45 C is 113 F, 0 C is 32 F, -10 C is 14 F (fixed point, 1/10000 deg)
    assert_eq!(to_fahrenheit(450_000), 1_130_000);
    assert_eq!(to_fahrenheit(0), 320_000);
    assert_eq!(to_fahrenheit(-100_000), 140_000);
    assert_eq!(to_fahrenheit(1_000_000), 2_120_000);
}

#[test]
fn celsius_of_known_values() {
    assert_eq!(to_celsius(1_130_000), 450_000);
    assert_eq!(to_celsius(320_000), 0);
    assert_eq!(to_celsius(140_000), -100_000);
}

#[test]
fn round_trip_exact_on_multiples_of_five() {
    for c in [450_000i64, 0, -100_000, 372_500, -55, 5] {
        assert_eq!(to_celsius(to_fahrenheit(c)), c);
    }
}

#[test]
fn round_trip_within_one_unit() {
    for c in [1i64, -1, 3, 7, -13, 123_457, -987_654_321] {
        let back = to_celsius(to_fahrenheit(c));
        assert!((back - c).abs() <= 1, "{c} came back as {back}");
    }
}

#[test]
fn double_conversion_of_display_value_is_stable() {
    for c in [1i64, -1, 37_123, 812_345_677, TEMP_SENTINEL] {
        let f = to_fahrenheit(c);
        let f2 = to_fahrenheit(to_celsius(f));
        assert!((f2 - f).abs() <= 2, "{f} came back as {f2}");
    }
}

#[test]
fn tab_toggles_and_q_quits() {
    assert_eq!(translate_key(KeyInput::Tab), Some(KeyActions::ToggleUnits));
    assert_eq!(translate_key(KeyInput::Char('q')), Some(KeyActions::Quit));
    assert_eq!(translate_key(KeyInput::Char('x')), None);
    assert_eq!(translate_key(KeyInput::Char('Q')), None);
    assert_eq!(translate_key(KeyInput::Other), None);
}

#[test]
fn listener_sends_only_on_key_presses() {
    let handler = KeyPressHandler::new();
    assert_eq!(handler.tick_rate_ms, 250);
    assert_eq!(handler.poll(InputEvent::TimedOut), None);
    assert_eq!(handler.poll(InputEvent::NotKeyPress), None);
    assert_eq!(
        handler.poll(InputEvent::KeyPress(KeyInput::Tab)),
        Some(Some(KeyActions::ToggleUnits))
    );
    assert_eq!(
        handler.poll(InputEvent::KeyPress(KeyInput::Char('q'))),
        Some(Some(KeyActions::Quit))
    );
    // an unrecognized key is reported as an explicit empty message
    assert_eq!(handler.poll(InputEvent::KeyPress(KeyInput::Char('z'))), Some(None));
}
