//! The application core: the sampler's tick record, the single-owner
//! state, its merge steps and the read accessors a renderer consumes.
//!
//! The state is owned by the driving loop alone.  A sampler thread and a
//! key listener publish over channels; on each render tick the driver
//! hands whatever the channels delivered to [`App::poll`] and
//! [`App::check_keys`], which merge it deterministically, and the renderer
//! reads a consistent snapshot through the accessors.

use crate::events::KeyActions;
use crate::temp::TEMP_LIMIT;
use crate::temp::TEMP_SENTINEL;
use crate::temp::spec_to_fahrenheit;
use crate::temp::to_fahrenheit;
use crate::text::byte_display_of;
use crate::text::dec_str;
use crate::text::format_bytes;
use crate::text::u32_dec;
use vstd::prelude::*;
use vstd::string::StringExecFns;

verus! {

/// The unit temperatures are displayed in.  Celsius is the canonical
/// storage unit; Fahrenheit is derived on read.
#[derive(Clone, Copy, Debug, PartialEq, Eq)]
pub enum Units {
    Celsius,
    Fahrenheit,
}

/// How the temperature history could be charted.
#[derive(Clone, Copy, Debug, PartialEq, Eq)]
pub enum GraphType {
    SparkLine,
    Scatter,
}

/// Whether the application keeps running.  `Quit` is terminal.
#[derive(Clone, Copy, Debug, PartialEq, Eq)]
pub enum State {
    Run,
    Quit,
}

/// The color band of the battery gauge, derived from the charge on read
/// and never stored.
#[derive(Clone, Copy, Debug, PartialEq, Eq)]
pub enum BatteryColorBand {
    Good,
    Warn,
    Critical,
}

/// Shown in place of a missing load share: 9999.99 percent, in
/// hundredths of a percent.
pub const LOAD_SENTINEL: u32 = 999_999;

/// The temperature history holds at most this many points; reaching the
/// bound resets it, it never slides.
pub const HISTORY_BOUND: usize = 10_000;

/// One reading of the aggregate CPU load.  Each share is stored in
/// hundredths of a percent: the measured fraction times ten thousand.
#[derive(Clone, Copy, Debug, PartialEq, Eq)]
pub struct LoadFractions {
    pub user: u32,
    pub nice: u32,
    pub system: u32,
    pub interrupt: u32,
    pub idle: u32,
}

/// One reading of the battery: the charge in percent and the reported
/// remaining running time in seconds.
#[derive(Clone, Copy, Debug, PartialEq, Eq)]
pub struct BatteryReading {
    pub percent: u8,
    pub remaining_secs: u64,
}

/// One reading of memory: total and free, in bytes.
#[derive(Clone, Copy, Debug, PartialEq, Eq)]
pub struct MemReading {
    pub total_bytes: u64,
    pub free_bytes: u64,
}

/// The load shares the dashboard shows, in hundredths of a percent, with
/// the sentinel standing in for a missing share.
#[derive(Clone, Copy, Debug, PartialEq, Eq)]
pub struct LoadBreakdown {
    pub user: u32,
    pub nice: u32,
    pub system: u32,
    pub interrupt: u32,
    pub idle: u32,
}

/// One immutable snapshot of every tracked metric, built by one sampler
/// tick.  Each field is either a measured value or unavailable; a failed
/// host query degrades its field alone, never the tick and never the
/// process.
pub struct Loads {
    /// CPU load shares, in hundredths of a percent.
    pub nice: Option<u32>,
    pub user: Option<u32>,
    pub system: Option<u32>,
    pub interrupt: Option<u32>,
    pub idle: Option<u32>,
    /// CPU temperature, in ten-thousandths of a degree Celsius.
    pub temp: Option<i64>,
    /// Battery charge, in percent.
    pub battery: Option<u8>,
    /// Memory used and total, in bytes.
    pub mem: Option<(u64, u64)>,
    /// Battery time remaining, as whole hours and leftover minutes
    /// derived from the reported seconds.
    pub battery_time: Option<(u32, u32)>,
}

/// A well-formed snapshot: a present temperature lies in the range the
/// fixed-point conversion accepts.
pub open spec fn loads_wf(loads: Loads) -> bool {
    loads.temp matches Some(t) ==> -TEMP_LIMIT <= t <= TEMP_LIMIT
}

impl Loads {
    /// A snapshot with every metric unavailable.
    pub fn new() -> (loads: Loads)
        ensures
            loads == (Loads {
                nice: None,
                user: None,
                system: None,
                interrupt: None,
                idle: None,
                temp: None,
                battery: None,
                mem: None,
                battery_time: None,
            }),
    {
        Loads {
            nice: None,
            user: None,
            system: None,
            interrupt: None,
            idle: None,
            temp: None,
            battery: None,
            mem: None,
            battery_time: None,
        }
    }
}

/// The sampler's tick logic.  The acquisition loop itself — querying the
/// host on a fixed cadence and publishing each snapshot over a bounded
/// channel until the receiving side is gone — runs outside the library
/// and hands every tick's query outcomes to [`Poller::build_loads`].
pub struct Poller {}

impl Poller {
    pub fn new() -> (poller: Poller)
        ensures
            poller == (Poller {  }),
    {
        Poller {  }
    }

    /// Builds one tick's snapshot from the outcomes of the four host
    /// queries; a failed query (`None`) leaves its metrics unavailable.
    /// Memory use is total minus free, saturating at zero; battery time
    /// is derived from the reported remaining seconds.
    pub fn build_loads(
        &self,
        cpu: Option<LoadFractions>,
        temp: Option<i64>,
        battery: Option<BatteryReading>,
        mem: Option<MemReading>,
    ) -> (loads: Loads)
        requires
            temp matches Some(t) ==> -TEMP_LIMIT <= t <= TEMP_LIMIT,
            battery matches Some(b) ==> b.remaining_secs / 3600 <= u32::MAX,
        ensures
            loads_wf(loads),
            loads.temp == temp,
            (match cpu {
                Some(c) => {
                    &&& loads.user == Some(c.user)
                    &&& loads.nice == Some(c.nice)
                    &&& loads.system == Some(c.system)
                    &&& loads.interrupt == Some(c.interrupt)
                    &&& loads.idle == Some(c.idle)
                },
                None => {
                    &&& loads.user is None
                    &&& loads.nice is None
                    &&& loads.system is None
                    &&& loads.interrupt is None
                    &&& loads.idle is None
                },
            }),
            (match battery {
                Some(b) => {
                    &&& loads.battery == Some(b.percent)
                    &&& loads.battery_time == Some((
                        (b.remaining_secs / 3600) as u32,
                        (b.remaining_secs % 3600 / 60) as u32,
                    ))
                },
                None => loads.battery is None && loads.battery_time is None,
            }),
            (match mem {
                Some(m) => loads.mem == Some((
                    if m.total_bytes >= m.free_bytes {
                        (m.total_bytes - m.free_bytes) as u64
                    } else {
                        0u64
                    },
                    m.total_bytes,
                )),
                None => loads.mem is None,
            }),
    {
        let mut loads = Loads::new();
        match cpu {
            Some(c) => {
                loads.user = Some(c.user);
                loads.nice = Some(c.nice);
                loads.system = Some(c.system);
                loads.interrupt = Some(c.interrupt);
                loads.idle = Some(c.idle);
            },
            None => {},
        }
        loads.temp = temp;
        match battery {
            Some(b) => {
                let hours = (b.remaining_secs / 3600) as u32;
                let minutes = (b.remaining_secs % 3600 / 60) as u32;
                loads.battery = Some(b.percent);
                loads.battery_time = Some((hours, minutes));
            },
            None => {},
        }
        match mem {
            Some(m) => {
                let used = if m.total_bytes >= m.free_bytes {
                    m.total_bytes - m.free_bytes
                } else {
                    0
                };
                loads.mem = Some((used, m.total_bytes));
            },
            None => {},
        }
        loads
    }
}

/// The display unit the toggle action switches to.
pub open spec fn spec_toggle(units: Units) -> Units {
    match units {
        Units::Celsius => Units::Fahrenheit,
        Units::Fahrenheit => Units::Celsius,
    }
}

/// The band of a battery charge: at least 65 percent is good, at least
/// 25 is a warning, and anything lower — or no reading at all — is
/// critical.
pub open spec fn spec_battery_band(battery: Option<u8>) -> BatteryColorBand {
    match battery {
        Some(p) => if p >= 65 {
            BatteryColorBand::Good
        } else if p >= 25 {
            BatteryColorBand::Warn
        } else {
            BatteryColorBand::Critical
        },
        None => BatteryColorBand::Critical,
    }
}

/// A load share with the sentinel standing in when it is missing.
pub open spec fn or_sentinel(share: Option<u32>) -> u32 {
    match share {
        Some(v) => v,
        None => LOAD_SENTINEL,
    }
}

/// The battery-time line: the remaining hours and minutes written out,
/// or "Err" when the reading is unavailable.
pub open spec fn spec_battery_time_text(battery_time: Option<(u32, u32)>) -> Seq<char> {
    match battery_time {
        Some(t) => "Time Remaining: "@ + dec_str(t.0 as nat) + "h "@ + dec_str(t.1 as nat) + "m"@,
        None => "Err"@,
    }
}

/// The temperature one merged sample contributes to the history: the
/// measured value, or zero when it is unavailable.
pub open spec fn temp_or_zero(loads: Loads) -> i64 {
    match loads.temp {
        Some(t) => t,
        None => 0i64,
    }
}

/// A history series after one merge: cleared first when it has reached
/// the bound, then one indexed point appended.
pub open spec fn spec_merged(series: Seq<(u64, i64)>, value: i64) -> Seq<(u64, i64)> {
    let base = if series.len() >= HISTORY_BOUND {
        Seq::<(u64, i64)>::empty()
    } else {
        series
    };
    base.push((base.len() as u64, value))
}

/// The unit and run state left by draining one tick's messages in order:
/// an empty message changes nothing, a toggle flips the unit, and quit
/// sets the run state and stops the drain at once.
pub open spec fn spec_drain(units: Units, state: State, msgs: Seq<Option<KeyActions>>) -> (Units,
    State)
    decreases msgs.len(),
{
    if msgs.len() == 0 {
        (units, state)
    } else {
        match msgs[0] {
            Some(KeyActions::Quit) => (units, State::Quit),
            Some(KeyActions::ToggleUnits) => spec_drain(spec_toggle(units), state, msgs.drop_first()),
            None => spec_drain(units, state, msgs.drop_first()),
        }
    }
}

/// The single-owner application state: the latest snapshot, the bounded
/// temperature history, the display unit and the run state.
pub struct App {
    pub load: Loads,
    pub units: Units,
    pub state: State,
    pub graph: GraphType,
    /// The Celsius history: one `(index, temperature)` point per merged
    /// sample.
    pub temp_vec: Vec<(u64, i64)>,
    /// The same history converted to Fahrenheit, kept in lockstep so a
    /// unit toggle only switches which series is read.
    pub temp_vec_f: Vec<(u64, i64)>,
    /// Whether a sample source was attached.
    pub reciever: bool,
    /// Whether an action source was attached.
    pub event_handler: bool,
}

/// One point of the history series pair is in order: point `i` carries
/// index `i` in both series, its temperature is in conversion range, and
/// the second series holds the converted value.
pub open spec fn point_ok(s: Seq<(u64, i64)>, sf: Seq<(u64, i64)>, i: int) -> bool {
    &&& s[i].0 == i
    &&& sf[i].0 == i
    &&& -TEMP_LIMIT <= s[i].1 <= TEMP_LIMIT
    &&& sf[i].1 == spec_to_fahrenheit(s[i].1 as int)
}

/// The invariant of the two history series: they run in lockstep and
/// every point is in order.
pub open spec fn series_wf(s: Seq<(u64, i64)>, sf: Seq<(u64, i64)>) -> bool {
    &&& s.len() == sf.len()
    &&& forall|i: int| 0 <= i < s.len() ==> #[trigger] point_ok(s, sf, i)
}

/// Appending the next indexed point to both series preserves their
/// invariant.
proof fn lemma_series_push(s: Seq<(u64, i64)>, sf: Seq<(u64, i64)>, value: i64, fvalue: i64)
    requires
        series_wf(s, sf),
        -TEMP_LIMIT <= value <= TEMP_LIMIT,
        fvalue == spec_to_fahrenheit(value as int),
        s.len() <= u64::MAX,
    ensures
        series_wf(s.push((s.len() as u64, value)), sf.push((sf.len() as u64, fvalue))),
{
    let s2 = s.push((s.len() as u64, value));
    let sf2 = sf.push((sf.len() as u64, fvalue));
    assert forall|i: int| 0 <= i < s2.len() implies #[trigger] point_ok(s2, sf2, i) by {
        if i < s.len() {
            assert(point_ok(s, sf, i));
            assert(s2[i] == s[i]);
            assert(sf2[i] == sf[i]);
        } else {
            assert(s2[i] == (s.len() as u64, value));
            assert(sf2[i] == (sf.len() as u64, fvalue));
        }
    }
}

impl App {
    /// The history invariant: both series satisfy the series invariant
    /// and stay within the bound.
    pub open spec fn history_wf(self) -> bool {
        &&& series_wf(self.temp_vec@, self.temp_vec_f@)
        &&& self.temp_vec@.len() <= HISTORY_BOUND
    }

    /// A well-formed application state.
    pub open spec fn wf(self) -> bool {
        &&& self.history_wf()
        &&& loads_wf(self.load)
    }

    /// What the temperature accessor shows: the stored Celsius value in
    /// the active unit, or the sentinel — whatever the unit — when the
    /// temperature is unavailable.
    pub open spec fn spec_display_temp(self) -> int {
        match self.load.temp {
            Some(t) => match self.units {
                Units::Celsius => t as int,
                Units::Fahrenheit => spec_to_fahrenheit(t as int),
            },
            None => TEMP_SENTINEL as int,
        }
    }

    /// The history series the active unit selects.
    pub open spec fn spec_active_series(self) -> Seq<(u64, i64)> {
        match self.units {
            Units::Celsius => self.temp_vec@,
            Units::Fahrenheit => self.temp_vec_f@,
        }
    }

    /// A fresh state: every metric unavailable, an empty history, Celsius
    /// display, running, and no sources attached yet.
    pub fn new() -> (app: App)
        ensures
            app.load == (Loads {
                nice: None,
                user: None,
                system: None,
                interrupt: None,
                idle: None,
                temp: None,
                battery: None,
                mem: None,
                battery_time: None,
            }),
            app.units == Units::Celsius,
            app.state == State::Run,
            app.graph == GraphType::Scatter,
            app.temp_vec@ == Seq::<(u64, i64)>::empty(),
            app.temp_vec_f@ == Seq::<(u64, i64)>::empty(),
            !app.reciever,
            !app.event_handler,
            app.wf(),
    {
        App {
            load: Loads::new(),
            units: Units::Celsius,
            state: State::Run,
            graph: GraphType::Scatter,
            temp_vec: Vec::new(),
            temp_vec_f: Vec::new(),
            reciever: false,
            event_handler: false,
        }
    }

    /// Marks that an action source was attached.
    pub fn set_event_handleer(&mut self)
        ensures
            *final(self) == (App { event_handler: true, ..*old(self) }),
    {
        self.event_handler = true;
    }

    /// Marks that a sample source was attached.
    pub fn set_reciever(&mut self)
        ensures
            *final(self) == (App { reciever: true, ..*old(self) }),
    {
        self.reciever = true;
    }

    /// The temperature to display, in fixed-point units of the active
    /// unit.  When the reading is unavailable the sentinel comes back in
    /// both unit modes.
    pub fn get_temp(&self) -> (shown: i64)
        requires
            loads_wf(self.load),
        ensures
            shown == self.spec_display_temp(),
            self.load.temp is None ==> shown == TEMP_SENTINEL,
    {
        match self.load.temp {
            Some(t) => match self.units {
                Units::Celsius => t,
                Units::Fahrenheit => to_fahrenheit(t),
            },
            None => TEMP_SENTINEL,
        }
    }

    /// The history series for the active unit, as read-only points.
    pub fn get_temp_points(&self) -> (points: &Vec<(u64, i64)>)
        ensures
            points@ == self.spec_active_series(),
    {
        match self.units {
            Units::Celsius => &self.temp_vec,
            Units::Fahrenheit => &self.temp_vec_f,
        }
    }

    /// The battery gauge band, derived from the charge on every read.
    pub fn get_battery_color(&self) -> (band: BatteryColorBand)
        ensures
            band == spec_battery_band(self.load.battery),
    {
        match self.load.battery {
            Some(p) => if p >= 65 {
                BatteryColorBand::Good
            } else if p >= 25 {
                BatteryColorBand::Warn
            } else {
                BatteryColorBand::Critical
            },
            None => BatteryColorBand::Critical,
        }
    }

    /// The memory display: used and total humanized, or "NA"/"NA" when
    /// the reading is unavailable.
    pub fn get_mem(&self) -> (shown: (String, String))
        ensures
            (match self.load.mem {
                Some(m) => shown.0@ == byte_display_of(m.0) && shown.1@ == byte_display_of(m.1),
                None => shown.0@ == "NA"@ && shown.1@ == "NA"@,
            }),
    {
        match self.load.mem {
            Some(m) => (format_bytes(m.0), format_bytes(m.1)),
            None => ("NA".to_owned(), "NA".to_owned()),
        }
    }

    /// The battery charge in percent, zero when unavailable.
    pub fn get_battery_left(&self) -> (percent: u8)
        ensures
            percent == (match self.load.battery {
                Some(p) => p,
                None => 0u8,
            }),
    {
        match self.load.battery {
            Some(p) => p,
            None => 0,
        }
    }

    /// The battery-time line, or "Err" when the reading is unavailable.
    pub fn get_battery_time(&self) -> (text: String)
        ensures
            text@ == spec_battery_time_text(self.load.battery_time),
    {
        match self.load.battery_time {
            Some((hours, minutes)) => {
                let mut text = String::from_str("Time Remaining: ");
                let h = u32_dec(hours);
                text.append(h.as_str());
                text.append("h ");
                let m = u32_dec(minutes);
                text.append(m.as_str());
                text.append("m");
                text
            },
            None => "Err".to_owned(),
        }
    }

    /// The load shares to display, the sentinel standing in for each
    /// missing one.
    pub fn get_load(&self) -> (breakdown: LoadBreakdown)
        ensures
            breakdown.user == or_sentinel(self.load.user),
            breakdown.nice == or_sentinel(self.load.nice),
            breakdown.system == or_sentinel(self.load.system),
            breakdown.interrupt == or_sentinel(self.load.interrupt),
            breakdown.idle == or_sentinel(self.load.idle),
    {
        LoadBreakdown {
            user: match self.load.user {
                Some(v) => v,
                None => LOAD_SENTINEL,
            },
            nice: match self.load.nice {
                Some(v) => v,
                None => LOAD_SENTINEL,
            },
            system: match self.load.system {
                Some(v) => v,
                None => LOAD_SENTINEL,
            },
            interrupt: match self.load.interrupt {
                Some(v) => v,
                None => LOAD_SENTINEL,
            },
            idle: match self.load.idle {
                Some(v) => v,
                None => LOAD_SENTINEL,
            },
        }
    }

    /// The merge step for samples, called once per render tick with the
    /// sample the channel delivered, if any.  A delivered sample extends
    /// both history series — clearing them first when the bound was
    /// reached — and replaces the stored snapshot wholesale; no delivery
    /// leaves the state untouched, so a missed tick never flaps a metric
    /// to unavailable.
    pub fn poll(&mut self, delivered: Option<Loads>)
        requires
            old(self).wf(),
            delivered matches Some(l) ==> loads_wf(l),
        ensures
            final(self).wf(),
            final(self).temp_vec@.len() <= HISTORY_BOUND,
            !old(self).reciever ==> *final(self) == *old(self),
            (match delivered {
                Some(l) => old(self).reciever ==> {
                    &&& final(self).load == l
                    &&& final(self).temp_vec@ == spec_merged(
                        old(self).temp_vec@,
                        temp_or_zero(l),
                    )
                    &&& final(self).temp_vec_f@ == spec_merged(
                        old(self).temp_vec_f@,
                        spec_to_fahrenheit(temp_or_zero(l) as int) as i64,
                    )
                    &&& final(self).units == old(self).units
                    &&& final(self).state == old(self).state
                    &&& final(self).graph == old(self).graph
                    &&& final(self).reciever == old(self).reciever
                    &&& final(self).event_handler == old(self).event_handler
                },
                None => *final(self) == *old(self),
            }),
            old(self).reciever && delivered is Some && old(self).temp_vec@.len() == HISTORY_BOUND
                ==> final(self).temp_vec@.len() == 1,
    {
        if !self.reciever {
            return;
        }
        match delivered {
            Some(loads) => {
                if self.temp_vec.len() >= HISTORY_BOUND {
                    self.temp_vec = Vec::new();
                    self.temp_vec_f = Vec::new();
                }
                let ghost base = self.temp_vec@;
                let ghost base_f = self.temp_vec_f@;
                let t = match loads.temp {
                    Some(t) => t,
                    None => 0,
                };
                let index = self.temp_vec.len() as u64;
                self.temp_vec.push((index, t));
                let index_f = self.temp_vec_f.len() as u64;
                let fr = to_fahrenheit(t);
                self.temp_vec_f.push((index_f, fr));
                self.load = loads;
                proof {
                    lemma_series_push(base, base_f, t, fr);
                    assert(self.temp_vec@ == base.push((base.len() as u64, t)));
                    assert(self.temp_vec_f@ == base_f.push((base_f.len() as u64, fr)));
                }
            },
            None => {},
        }
    }

    /// The merge step for key actions: drains the messages received this
    /// tick in order — quit stops the drain at once — and reports `Err`
    /// when no action source was attached, which the driving loop treats
    /// as "the user interface stops reacting to keys".
    pub fn check_keys(&mut self, msgs: &Vec<Option<KeyActions>>) -> (result: Result<(), ()>)
        ensures
            !old(self).event_handler ==> result is Err && *final(self) == *old(self),
            old(self).event_handler ==> {
                &&& result is Ok
                &&& (final(self).units, final(self).state) == spec_drain(
                    old(self).units,
                    old(self).state,
                    msgs@,
                )
                &&& final(self).load == old(self).load
                &&& final(self).temp_vec@ == old(self).temp_vec@
                &&& final(self).temp_vec_f@ == old(self).temp_vec_f@
                &&& final(self).graph == old(self).graph
                &&& final(self).reciever == old(self).reciever
                &&& final(self).event_handler == old(self).event_handler
            },
    {
        if !self.event_handler {
            return Err(());
        }
        let mut i: usize = 0;
        let mut stopped: bool = false;
        proof {
            assert(msgs@.skip(0) =~= msgs@);
        }
        while i < msgs.len() && !stopped
            invariant
                i <= msgs@.len(),
                self.load == old(self).load,
                self.temp_vec@ == old(self).temp_vec@,
                self.temp_vec_f@ == old(self).temp_vec_f@,
                self.graph == old(self).graph,
                self.reciever == old(self).reciever,
                self.event_handler == old(self).event_handler,
                !stopped ==> spec_drain(old(self).units, old(self).state, msgs@) == spec_drain(
                    self.units,
                    self.state,
                    msgs@.skip(i as int),
                ),
                stopped ==> spec_drain(old(self).units, old(self).state, msgs@) == (
                    self.units,
                    self.state,
                ),
            decreases msgs@.len() - i,
        {
            proof {
                assert(msgs@.skip(i as int)[0] == msgs@[i as int]);
                assert(msgs@.skip(i as int).drop_first() =~= msgs@.skip(i as int + 1));
            }
            match msgs[i] {
                Some(KeyActions::Quit) => {
                    self.state = State::Quit;
                    stopped = true;
                },
                Some(KeyActions::ToggleUnits) => {
                    match self.units {
                        Units::Celsius => self.units = Units::Fahrenheit,
                        Units::Fahrenheit => self.units = Units::Celsius,
                    }
                },
                None => {},
            }
            i = i + 1;
        }
        Ok(())
    }
}

/// The temperature history never exceeds its bound.
pub proof fn lemma_history_bounded(app: App)
    requires
        app.wf(),
    ensures
        app.temp_vec@.len() <= HISTORY_BOUND,
        app.temp_vec_f@.len() <= HISTORY_BOUND,
{
}

/// Toggling the display unit twice returns the displayed temperature to
/// its original value.
pub proof fn lemma_double_toggle_display(app: App)
    ensures
        (App { units: spec_toggle(spec_toggle(app.units)), ..app }).spec_display_temp()
            == app.spec_display_temp(),
{
}

/// A quit message anywhere in a drained batch drives the run state to
/// quit, whenever it arrives.
pub proof fn lemma_quit_applies(
    units: Units,
    state: State,
    msgs: Seq<Option<KeyActions>>,
    i: int,
)
    requires
        0 <= i < msgs.len(),
        msgs[i] == Some(KeyActions::Quit),
    ensures
        spec_drain(units, state, msgs).1 == State::Quit,
    decreases msgs.len(),
{
    if msgs[0] != Some(KeyActions::Quit) {
        match msgs[0] {
            Some(KeyActions::ToggleUnits) => {
                lemma_quit_applies(spec_toggle(units), state, msgs.drop_first(), i - 1);
            },
            None => {
                lemma_quit_applies(units, state, msgs.drop_first(), i - 1);
            },
            Some(KeyActions::Quit) => {},
        }
    }
}

/// Once quit, always quit: no batch of later messages moves the run
/// state back.
pub proof fn lemma_quit_terminal(units: Units, msgs: Seq<Option<KeyActions>>)
    ensures
        spec_drain(units, State::Quit, msgs).1 == State::Quit,
    decreases msgs.len(),
{
    if msgs.len() > 0 {
        match msgs[0] {
            Some(KeyActions::Quit) => {},
            Some(KeyActions::ToggleUnits) => {
                lemma_quit_terminal(spec_toggle(units), msgs.drop_first());
            },
            None => {
                lemma_quit_terminal(units, msgs.drop_first());
            },
        }
    }
}

/// A drain ends quit exactly when it starts quit or some drained message
/// is the quit action.
pub proof fn lemma_quit_characterization(units: Units, state: State, msgs: Seq<Option<KeyActions>>)
    ensures
        spec_drain(units, state, msgs).1 == State::Quit <==> (state == State::Quit || exists|i: int|
            0 <= i < msgs.len() && msgs[i] == Some(KeyActions::Quit)),
    decreases msgs.len(),
{
    if state == State::Quit {
        lemma_quit_terminal(units, msgs);
    } else if msgs.len() == 0 {
    } else {
        match msgs[0] {
            Some(KeyActions::Quit) => {
                assert(msgs[0] == Some(KeyActions::Quit));
            },
            Some(KeyActions::ToggleUnits) => {
                lemma_quit_characterization(spec_toggle(units), state, msgs.drop_first());
                lemma_quit_shift(msgs);
            },
            None => {
                lemma_quit_characterization(units, state, msgs.drop_first());
                lemma_quit_shift(msgs);
            },
        }
    }
}

/// When the first message is not quit, the batch holds a quit message
/// exactly when the rest of it does.
proof fn lemma_quit_shift(msgs: Seq<Option<KeyActions>>)
    requires
        msgs.len() > 0,
        msgs[0] != Some(KeyActions::Quit),
    ensures
        (exists|i: int| 0 <= i < msgs.len() && msgs[i] == Some(KeyActions::Quit)) <==> (exists|
            j: int,
        | 0 <= j < msgs.drop_first().len() && msgs.drop_first()[j] == Some(KeyActions::Quit)),
{
    if exists|i: int| 0 <= i < msgs.len() && msgs[i] == Some(KeyActions::Quit) {
        let i = choose|i: int| 0 <= i < msgs.len() && msgs[i] == Some(KeyActions::Quit);
        assert(msgs.drop_first()[i - 1] == Some(KeyActions::Quit));
    }
    if exists|j: int| 0 <= j < msgs.drop_first().len() && msgs.drop_first()[j] == Some(
        KeyActions::Quit,
    ) {
        let j = choose|j: int|
            0 <= j < msgs.drop_first().len() && msgs.drop_first()[j] == Some(KeyActions::Quit);
        assert(msgs[j + 1] == Some(KeyActions::Quit));
    }
}

} // verus!
