use sysdash::app::App;
use sysdash::app::BatteryColorBand;
use sysdash::app::BatteryReading;
use sysdash::app::LoadFractions;
use sysdash::app::Loads;
use sysdash::app::MemReading;
use sysdash::app::Poller;
use sysdash::app::LOAD_SENTINEL;
use sysdash::events::KeyActions;
use sysdash::app::Units;

fn empty_sample() -> Loads {
    Poller::new().build_loads(None, None, None, None)
}

fn battery_sample(percent: u8, remaining_secs: u64) -> Loads {
    Poller::new().build_loads(
        None,
        None,
        Some(BatteryReading { percent, remaining_secs }),
        None,
    )
}

fn running_app_with(sample: Loads) -> App {
    let mut app = App::new();
    app.set_reciever();
    app.set_event_handleer();
    app.poll(Some(sample));
    app
}

#[test]
fn full_scenario_shows_every_metric() {
    let sample = Poller::new().build_loads(
        // shares in hundredths of a percent: 10%, 0%, 5%, 5%, 80%
        Some(LoadFractions { user: 1_000, nice: 0, system: 500, interrupt: 500, idle: 8_000 }),
        Some(450_000),
        Some(BatteryReading { percent: 70, remaining_secs: 3_725 }),
        Some(MemReading { total_bytes: 16_000_000_000, free_bytes: 12_000_000_000 }),
    );
    let mut app = running_app_with(sample);

    let shares = app.get_load();
    assert_eq!(shares.idle, 8_000);
    assert_eq!(shares.user, 1_000);
    assert_eq!(app.get_temp(), 450_000);
    app.check_keys(&vec![Some(KeyActions::ToggleUnits)]).unwrap();
    assert_eq!(app.units, Units::Fahrenheit);
    assert_eq!(app.get_temp(), 1_130_000);
    assert_eq!(app.get_battery_color(), BatteryColorBand::Good);
    assert_eq!(app.get_battery_left(), 70);
    assert_eq!(app.get_battery_time(), "Time Remaining: 1h 2m");
    let (used, total) = app.get_mem();
    assert_eq!(used, "4.0 GB");
    assert_eq!(total, "16.0 GB");
}

#[test]
fn unavailable_metrics_show_their_sentinels() {
    let app = running_app_with(empty_sample());
    let shares = app.get_load();
    assert_eq!(shares.user, LOAD_SENTINEL);
    assert_eq!(shares.nice, LOAD_SENTINEL);
    assert_eq!(shares.system, LOAD_SENTINEL);
    assert_eq!(shares.interrupt, LOAD_SENTINEL);
    assert_eq!(shares.idle, LOAD_SENTINEL);
    assert_eq!(app.get_temp(), sysdash::temp::TEMP_SENTINEL);
    assert_eq!(app.get_battery_left(), 0);
    assert_eq!(app.get_battery_time(), "Err");
    assert_eq!(app.get_battery_color(), BatteryColorBand::Critical);
    assert_eq!(app.get_mem(), ("NA".to_owned(), "NA".to_owned()));
}

#[test]
fn battery_bands_have_the_documented_edges() {
    assert_eq!(running_app_with(battery_sample(100, 0)).get_battery_color(), BatteryColorBand::Good);
    assert_eq!(running_app_with(battery_sample(65, 0)).get_battery_color(), BatteryColorBand::Good);
    assert_eq!(running_app_with(battery_sample(64, 0)).get_battery_color(), BatteryColorBand::Warn);
    assert_eq!(running_app_with(battery_sample(25, 0)).get_battery_color(), BatteryColorBand::Warn);
    assert_eq!(
        running_app_with(battery_sample(24, 0)).get_battery_color(),
        BatteryColorBand::Critical
    );
    assert_eq!(
        running_app_with(battery_sample(0, 0)).get_battery_color(),
        BatteryColorBand::Critical
    );
}

#[test]
fn battery_time_derives_hours_and_minutes_from_seconds() {
    let app = running_app_with(battery_sample(50, 7_200));
    assert_eq!(app.get_battery_time(), "Time Remaining: 2h 0m");
    let app = running_app_with(battery_sample(50, 3_540));
    assert_eq!(app.get_battery_time(), "Time Remaining: 0h 59m");
    // leftover seconds below a minute do not count as a minute
    let app = running_app_with(battery_sample(50, 59));
    assert_eq!(app.get_battery_time(), "Time Remaining: 0h 0m");
    // several digits, including an inner zero
    let app = running_app_with(battery_sample(50, 3_600 * 105 + 60 * 30));
    assert_eq!(app.get_battery_time(), "Time Remaining: 105h 30m");
}

#[test]
fn memory_use_is_total_minus_free_saturating() {
    let sample = Poller::new().build_loads(
        None,
        None,
        None,
        Some(MemReading { total_bytes: 999, free_bytes: 0 }),
    );
    let app = running_app_with(sample);
    assert_eq!(app.get_mem(), ("999 B".to_owned(), "999 B".to_owned()));

    // free above total saturates the use at zero
    let sample = Poller::new().build_loads(
        None,
        None,
        None,
        Some(MemReading { total_bytes: 500, free_bytes: 600 }),
    );
    let app = running_app_with(sample);
    assert_eq!(app.get_mem(), ("0 B".to_owned(), "500 B".to_owned()));
}
