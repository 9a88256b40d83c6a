use sysdash::app::App;
use sysdash::app::Poller;
use sysdash::events::KeyActions;
use sysdash::app::State;
use sysdash::app::Units;
use sysdash::temp::TEMP_SENTINEL;

use sysdash::app::Loads;

fn sample_with_temp(temp: i64) -> Loads {
    Poller::new().build_loads(None, Some(temp), None, None)
}

fn running_app() -> App {
    let mut app = App::new();
    app.set_reciever();
    app.set_event_handleer();
    app
}

#[test]
fn fresh_app_runs_in_celsius() {
    let app = App::new();
    assert_eq!(app.units, Units::Celsius);
    assert_eq!(app.state, State::Run);
    assert!(app.get_temp_points().is_empty());
    assert_eq!(app.get_temp(), TEMP_SENTINEL);
}

#[test]
fn poll_merges_a_delivered_sample() {
    let mut app = running_app();
    app.poll(Some(sample_with_temp(450_000)));
    assert_eq!(app.get_temp(), 450_000);
    assert_eq!(app.get_temp_points().len(), 1);
    assert_eq!(app.get_temp_points()[0], (0, 450_000));
}

#[test]
fn poll_without_a_delivery_changes_nothing() {
    let mut app = running_app();
    app.poll(Some(sample_with_temp(450_000)));
    app.poll(None);
    assert_eq!(app.get_temp(), 450_000);
    assert_eq!(app.get_temp_points().len(), 1);
}

#[test]
fn poll_without_a_receiver_changes_nothing() {
    let mut app = App::new();
    app.poll(Some(sample_with_temp(450_000)));
    assert_eq!(app.get_temp(), TEMP_SENTINEL);
    assert!(app.get_temp_points().is_empty());
}

#[test]
fn history_keeps_both_series_in_lockstep() {
    let mut app = running_app();
    app.poll(Some(sample_with_temp(0)));
    app.poll(Some(sample_with_temp(450_000)));
    app.poll(Some(sample_with_temp(-100_000)));
    assert_eq!(app.get_temp_points().as_slice(), &[(0, 0), (1, 450_000), (2, -100_000)]);
    app.check_keys(&vec![Some(KeyActions::ToggleUnits)]).unwrap();
    assert_eq!(app.units, Units::Fahrenheit);
    assert_eq!(app.get_temp_points().as_slice(), &[(0, 320_000), (1, 1_130_000), (2, 140_000)]);
}

#[test]
fn history_records_zero_for_a_missing_temperature() {
    let mut app = running_app();
    app.poll(Some(Poller::new().build_loads(None, None, None, None)));
    assert_eq!(app.get_temp_points()[0], (0, 0));
    app.check_keys(&vec![Some(KeyActions::ToggleUnits)]).unwrap();
    // zero Celsius charts as 32 F
    assert_eq!(app.get_temp_points()[0], (0, 320_000));
}

#[test]
fn history_resets_after_ten_thousand_points() {
    let mut app = running_app();
    for i in 0..10_000i64 {
        app.poll(Some(sample_with_temp(i * 100)));
    }
    assert_eq!(app.get_temp_points().len(), 10_000);
    // one more sample resets the series to that single point
    app.poll(Some(sample_with_temp(10_000 * 100)));
    assert_eq!(app.get_temp_points().len(), 1);
    assert_eq!(app.get_temp_points()[0], (0, 1_000_000));
}

#[test]
fn quit_is_terminal() {
    let mut app = running_app();
    app.check_keys(&vec![
        Some(KeyActions::ToggleUnits),
        Some(KeyActions::Quit),
        Some(KeyActions::ToggleUnits),
    ])
    .unwrap();
    assert_eq!(app.state, State::Quit);
    // the quit message stopped the drain, so only the first toggle landed
    assert_eq!(app.units, Units::Fahrenheit);
    // no later batch moves the run state back
    app.check_keys(&vec![Some(KeyActions::ToggleUnits), None]).unwrap();
    assert_eq!(app.state, State::Quit);
}

#[test]
fn empty_messages_change_nothing() {
    let mut app = running_app();
    app.check_keys(&vec![None, None, None]).unwrap();
    assert_eq!(app.units, Units::Celsius);
    assert_eq!(app.state, State::Run);
}

#[test]
fn check_keys_without_a_handler_reports_err() {
    let mut app = App::new();
    assert_eq!(app.check_keys(&vec![Some(KeyActions::Quit)]), Err(()));
    assert_eq!(app.state, State::Run);
}

#[test]
fn double_toggle_restores_the_displayed_temperature() {
    let mut app = running_app();
    app.poll(Some(sample_with_temp(372_500)));
    let before = app.get_temp();
    app.check_keys(&vec![Some(KeyActions::ToggleUnits)]).unwrap();
    app.check_keys(&vec![Some(KeyActions::ToggleUnits)]).unwrap();
    assert_eq!(app.get_temp(), before);
}

#[test]
fn sentinel_is_shown_in_both_unit_modes() {
    let mut app = running_app();
    app.poll(Some(Poller::new().build_loads(None, None, None, None)));
    assert_eq!(app.get_temp(), TEMP_SENTINEL);
    app.check_keys(&vec![Some(KeyActions::ToggleUnits)]).unwrap();
    assert_eq!(app.get_temp(), TEMP_SENTINEL);
}
