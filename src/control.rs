//! The control loop as a state machine. Each cycle reads the clock, the
//! temperature (start a conversion, wait it out, read the scratchpad), the
//! moisture and the light, then clears the display and writes the whole block.
//! The machine names the next thing to do (`Command`) and learns its outcome
//! (`Event`). A failed read is logged and the field keeps its last value; a
//! failed display step is logged and the cycle starts over. The log is best
//! effort: its outcome never changes what comes next.
use vstd::prelude::*;
use crate::display::DisplayError;
use crate::reading::{Celsius, Percent, full_scale, percent_from_adc_reading, percent_of};
use crate::render::{ClockReading, block_text, render_block, showable};
use crate::sensors::{
    BusFault,
    Light,
    Reading,
    Resolution,
    SensorError,
    SoilMoisture,
    conversion_delay_ms,
    conversion_time_ms,
    decode_sample,
    sample_outcome,
};

verus! {

/// A diagnostic for the serial log: which part failed, and how.
#[derive(Clone, Copy, Debug, PartialEq, Eq, Structural)]
pub enum Notice {
    Temperature(SensorError),
    Moisture(SensorError),
    Light(SensorError),
    Display(DisplayError),
}

/// The part of the device that a notice is about.
pub open spec fn notice_subject(n: Notice) -> Seq<char> {
    match n {
        Notice::Temperature(_) => "temperature"@,
        Notice::Moisture(_) => "moisture"@,
        Notice::Light(_) => "light"@,
        Notice::Display(_) => "display"@,
    }
}

/// The kind of failure that a notice reports.
pub open spec fn notice_kind(n: Notice) -> Seq<char> {
    match n {
        Notice::Temperature(e) | Notice::Moisture(e) | Notice::Light(e) => match e {
            SensorError::BusFault(_) => "bus fault"@,
            SensorError::NoDevice => "no device"@,
            SensorError::ReadFailure => "read failure"@,
        },
        Notice::Display(d) => match d {
            DisplayError::Uninitialized => "uninitialized"@,
            DisplayError::DrawOutOfBounds => "out of bounds"@,
            DisplayError::DriverFault => "driver fault"@,
        },
    }
}

/// The log line of a notice: `<subject>: <kind>` and a line end.
pub open spec fn notice_line(n: Notice) -> Seq<char> {
    notice_subject(n) + ": "@ + notice_kind(n) + "\r\n"@
}

fn append_str(out: &mut Vec<char>, s: &str)
    ensures
        final(out)@ == old(out)@ + s@,
{
    let n = s.unicode_len();
    let mut i: usize = 0;
    while i < n
        invariant
            n == s@.len(),
            0 <= i <= n,
            out@ == old(out)@ + s@.subrange(0, i as int),
        decreases n - i,
    {
        out.push(s.get_char(i));
        assert(s@.subrange(0, i + 1) =~= s@.subrange(0, i as int).push(s@[i as int]));
        i = i + 1;
    }
    assert(s@.subrange(0, n as int) =~= s@);
}

/// The log line of a notice.
pub fn notice_text(n: Notice) -> (r: Vec<char>)
    ensures
        r@ == notice_line(n),
{
    let mut out: Vec<char> = Vec::new();
    let subject = match n {
        Notice::Temperature(_) => "temperature",
        Notice::Moisture(_) => "moisture",
        Notice::Light(_) => "light",
        Notice::Display(_) => "display",
    };
    let kind = match n {
        Notice::Temperature(e) | Notice::Moisture(e) | Notice::Light(e) => match e {
            SensorError::BusFault(_) => "bus fault",
            SensorError::NoDevice => "no device",
            SensorError::ReadFailure => "read failure",
        },
        Notice::Display(d) => match d {
            DisplayError::Uninitialized => "uninitialized",
            DisplayError::DrawOutOfBounds => "out of bounds",
            DisplayError::DriverFault => "driver fault",
        },
    };
    append_str(&mut out, subject);
    append_str(&mut out, ": ");
    append_str(&mut out, kind);
    append_str(&mut out, "\r\n");
    assert(out@ =~= notice_line(n));
    out
}

/// The serial transport did not take a log line.
#[derive(Clone, Copy, Debug, PartialEq, Eq, Structural)]
pub struct TransportFault;

/// What the loop is waiting for.
#[derive(Clone, Copy, Debug, PartialEq, Eq, Structural)]
pub enum Stage {
    ReadClock,
    StartConversion,
    AwaitConversion(u16),
    ReadScratchpad,
    ReadMoisture,
    ReadLight,
    Clear,
    Draw,
}

/// The next thing for the loop's driver to do.
#[derive(Clone, Copy, Debug, PartialEq, Eq, Structural)]
pub enum Command {
    ReadClock,
    /// Start a temperature conversion on the bus.
    StartConversion,
    /// Busy-wait this many milliseconds.
    Wait(u16),
    ReadScratchpad,
    ReadMoisture,
    ReadLight,
    ClearDisplay,
    /// Write `Monitor::block` to the display.
    WriteDisplay,
    /// Send `notice_text` of this notice to the serial log.
    Log(Notice),
}

/// The outcome of a command.
#[derive(Clone, Copy, Debug)]
pub enum Event {
    Clock(ClockReading),
    ConversionStarted(Result<Resolution, BusFault>),
    Waited,
    Scratchpad(Result<u16, BusFault>),
    /// A moisture conversion; `None` where the converter reported an error.
    Moisture(Option<u16>),
    /// A light conversion; `None` where the converter reported an error.
    Light(Option<u16>),
    Cleared(Result<(), DisplayError>),
    Written(Result<(), DisplayError>),
    Logged(Result<(), TransportFault>),
}

/// The loop's state: what it waits for, a diagnostic still to be logged, and
/// the last known value of each field.
#[derive(Clone, Copy, Debug, PartialEq, Eq, Structural)]
pub struct Monitor {
    pub stage: Stage,
    pub notice: Option<Notice>,
    pub clock: ClockReading,
    pub temperature: Option<Celsius>,
    pub moisture: Option<Percent>,
    pub light: Option<Percent>,
    pub moisture_sensor: SoilMoisture,
    pub light_sensor: Light,
}

impl Monitor {
    /// Probes of a resolution that the percentage can be taken over, and shown
    /// values that can be rendered.
    pub open spec fn wf(self) -> bool {
        &&& 1 <= self.moisture_sensor.resolution_bits < 31
        &&& 1 <= self.light_sensor.resolution_bits < 31
        &&& showable(self.moisture)
        &&& showable(self.light)
    }
}

/// The command that a state asks for.
pub open spec fn command_of(m: Monitor) -> Command {
    match m.notice {
        Some(n) => Command::Log(n),
        None => match m.stage {
            Stage::ReadClock => Command::ReadClock,
            Stage::StartConversion => Command::StartConversion,
            Stage::AwaitConversion(ms) => Command::Wait(ms),
            Stage::ReadScratchpad => Command::ReadScratchpad,
            Stage::ReadMoisture => Command::ReadMoisture,
            Stage::ReadLight => Command::ReadLight,
            Stage::Clear => Command::ClearDisplay,
            Stage::Draw => Command::WriteDisplay,
        },
    }
}

/// `m` moved on to `stage`, with `notice` to log first where there is one.
pub open spec fn go(m: Monitor, stage: Stage, notice: Option<Notice>) -> Monitor {
    Monitor { stage, notice, ..m }
}

/// The state after `e`. An event that does not answer the pending command
/// leaves the state as it is.
pub open spec fn next(m: Monitor, e: Event) -> Monitor {
    match m.notice {
        Some(_) => match e {
            Event::Logged(_) => Monitor { notice: None, ..m },
            _ => m,
        },
        None => match (m.stage, e) {
            (Stage::ReadClock, Event::Clock(c)) => Monitor { clock: c, ..go(m, Stage::StartConversion, None) },
            (Stage::StartConversion, Event::ConversionStarted(Ok(r))) =>
                go(m, Stage::AwaitConversion(conversion_time_ms(r)), None),
            (Stage::StartConversion, Event::ConversionStarted(Err(f))) =>
                go(m, Stage::ReadMoisture, Some(Notice::Temperature(SensorError::BusFault(f)))),
            (Stage::AwaitConversion(_), Event::Waited) => go(m, Stage::ReadScratchpad, None),
            (Stage::ReadScratchpad, Event::Scratchpad(s)) => match sample_outcome(s) {
                Ok(c) => Monitor { temperature: Some(c), ..go(m, Stage::ReadMoisture, None) },
                Err(err) => go(m, Stage::ReadMoisture, Some(Notice::Temperature(err))),
            },
            (Stage::ReadMoisture, Event::Moisture(Some(raw))) => Monitor {
                moisture: Some(percent_of(m.moisture_sensor.resolution_bits as nat, raw)),
                ..go(m, Stage::ReadLight, None)
            },
            (Stage::ReadMoisture, Event::Moisture(None)) =>
                go(m, Stage::ReadLight, Some(Notice::Moisture(SensorError::ReadFailure))),
            (Stage::ReadLight, Event::Light(Some(raw))) => Monitor {
                light: Some(percent_of(m.light_sensor.resolution_bits as nat, raw)),
                ..go(m, Stage::Clear, None)
            },
            (Stage::ReadLight, Event::Light(None)) =>
                go(m, Stage::Clear, Some(Notice::Light(SensorError::ReadFailure))),
            (Stage::Clear, Event::Cleared(Ok(()))) => go(m, Stage::Draw, None),
            (Stage::Clear, Event::Cleared(Err(d))) => go(m, Stage::ReadClock, Some(Notice::Display(d))),
            (Stage::Draw, Event::Written(Ok(()))) => go(m, Stage::ReadClock, None),
            (Stage::Draw, Event::Written(Err(d))) => go(m, Stage::ReadClock, Some(Notice::Display(d))),
            _ => m,
        },
    }
}

/// The state after the events `es`, in order.
pub open spec fn run(m: Monitor, es: Seq<Event>) -> Monitor
    decreases es.len(),
{
    if es.len() == 0 {
        m
    } else {
        next(run(m, es.drop_last()), es.last())
    }
}

/// `es` with every log outcome replaced by a transport fault.
pub open spec fn with_failing_log(es: Seq<Event>) -> Seq<Event> {
    es.map_values(|e: Event| if e is Logged { Event::Logged(Err(TransportFault)) } else { e })
}

/// Logging is best effort: whether the transport takes a log line or fails,
/// the loop reaches the same state and asks for the same next command.
pub proof fn log_outcome_is_ignored(m: Monitor, a: Result<(), TransportFault>, b: Result<(), TransportFault>)
    ensures
        next(m, Event::Logged(a)) == next(m, Event::Logged(b)),
        command_of(next(m, Event::Logged(a))) == command_of(next(m, Event::Logged(b))),
{
}

/// A transport that fails every write does not change the run of the loop: over
/// any sequence of events, failing every log line leads to the same state.
pub proof fn failing_transport_leaves_run_unchanged(m: Monitor, es: Seq<Event>)
    ensures
        run(m, with_failing_log(es)) == run(m, es),
    decreases es.len(),
{
    if es.len() > 0 {
        let f = with_failing_log(es);
        assert(f.drop_last() =~= with_failing_log(es.drop_last()));
        failing_transport_leaves_run_unchanged(m, es.drop_last());
        let e = es.last();
        assert(f.last() == (if e is Logged { Event::Logged(Err(TransportFault)) } else { e }));
        if let Event::Logged(x) = e {
            log_outcome_is_ignored(run(m, es.drop_last()), x, Err(TransportFault));
        }
    }
}

impl Monitor {
    /// A loop at the start of a cycle, with nothing known yet; both probes are
    /// read at `resolution_bits`.
    pub fn new(resolution_bits: u32) -> (r: Monitor)
        requires
            1 <= resolution_bits < 31,
        ensures
            r.wf(),
            r.stage == Stage::ReadClock,
            r.notice is None,
            r.temperature is None,
            r.moisture is None,
            r.light is None,
            r.moisture_sensor.resolution_bits == resolution_bits,
            r.light_sensor.resolution_bits == resolution_bits,
            command_of(r) == Command::ReadClock,
    {
        Monitor {
            stage: Stage::ReadClock,
            notice: None,
            clock: ClockReading { hours: 0, minutes: 0, seconds: 0 },
            temperature: None,
            moisture: None,
            light: None,
            moisture_sensor: SoilMoisture::new(resolution_bits),
            light_sensor: Light::new(resolution_bits),
        }
    }

    /// The next thing to do.
    pub fn command(&self) -> (r: Command)
        ensures
            r == command_of(*self),
    {
        match self.notice {
            Some(n) => Command::Log(n),
            None => match self.stage {
                Stage::ReadClock => Command::ReadClock,
                Stage::StartConversion => Command::StartConversion,
                Stage::AwaitConversion(ms) => Command::Wait(ms),
                Stage::ReadScratchpad => Command::ReadScratchpad,
                Stage::ReadMoisture => Command::ReadMoisture,
                Stage::ReadLight => Command::ReadLight,
                Stage::Clear => Command::ClearDisplay,
                Stage::Draw => Command::WriteDisplay,
            },
        }
    }

    /// The block of text to write to the display.
    pub fn block(&self) -> (r: Vec<char>)
        requires
            self.wf(),
        ensures
            r@ == block_text(self.temperature, self.moisture, self.light, self.clock),
    {
        render_block(self.temperature, self.moisture, self.light, self.clock)
    }

    fn percent(resolution_bits: u32, reading: Reading) -> (r: Option<Percent>)
        requires
            1 <= resolution_bits < 31,
            reading matches Reading::Moisture { raw, resolution_bits: b } ==> b == resolution_bits,
            reading matches Reading::Light { raw, resolution_bits: b } ==> b == resolution_bits,
        ensures
            reading matches Reading::Moisture { raw, resolution_bits: _ } ==> r == Some(
                percent_of(resolution_bits as nat, raw),
            ),
            reading matches Reading::Light { raw, resolution_bits: _ } ==> r == Some(
                percent_of(resolution_bits as nat, raw),
            ),
            showable(r),
    {
        proof {
            vstd::arithmetic::power2::lemma_pow2_strictly_increases(0, resolution_bits as nat);
            vstd::arithmetic::power2::lemma2_to64();
        }
        match reading {
            Reading::Moisture { raw, resolution_bits: _ } => Some(percent_from_adc_reading(resolution_bits, raw)),
            Reading::Light { raw, resolution_bits: _ } => Some(percent_from_adc_reading(resolution_bits, raw)),
            Reading::Temperature(_) => None,
        }
    }

    /// Takes the outcome of the pending command and moves on.
    pub fn step(&mut self, e: Event)
        requires
            old(self).wf(),
        ensures
            final(self).wf(),
            *final(self) == next(*old(self), e),
    {
        if self.notice.is_some() {
            if let Event::Logged(_) = e {
                self.notice = None;
            }
            return;
        }
        match (self.stage, e) {
            (Stage::ReadClock, Event::Clock(c)) => {
                self.clock = c;
                self.stage = Stage::StartConversion;
            },
            (Stage::StartConversion, Event::ConversionStarted(Ok(r))) => {
                self.stage = Stage::AwaitConversion(conversion_delay_ms(r));
            },
            (Stage::StartConversion, Event::ConversionStarted(Err(f))) => {
                self.stage = Stage::ReadMoisture;
                self.notice = Some(Notice::Temperature(SensorError::BusFault(f)));
            },
            (Stage::AwaitConversion(_), Event::Waited) => {
                self.stage = Stage::ReadScratchpad;
            },
            (Stage::ReadScratchpad, Event::Scratchpad(s)) => {
                match decode_sample(s) {
                    Ok(c) => self.temperature = Some(c),
                    Err(err) => self.notice = Some(Notice::Temperature(err)),
                }
                self.stage = Stage::ReadMoisture;
            },
            (Stage::ReadMoisture, Event::Moisture(conversion)) => {
                match self.moisture_sensor.read(conversion) {
                    Ok(reading) => self.moisture = Monitor::percent(self.moisture_sensor.resolution_bits, reading),
                    Err(err) => self.notice = Some(Notice::Moisture(err)),
                }
                self.stage = Stage::ReadLight;
            },
            (Stage::ReadLight, Event::Light(conversion)) => {
                match self.light_sensor.read(conversion) {
                    Ok(reading) => self.light = Monitor::percent(self.light_sensor.resolution_bits, reading),
                    Err(err) => self.notice = Some(Notice::Light(err)),
                }
                self.stage = Stage::Clear;
            },
            (Stage::Clear, Event::Cleared(outcome)) => {
                match outcome {
                    Ok(()) => self.stage = Stage::Draw,
                    Err(d) => {
                        self.stage = Stage::ReadClock;
                        self.notice = Some(Notice::Display(d));
                    },
                }
            },
            (Stage::Draw, Event::Written(outcome)) => {
                if let Err(d) = outcome {
                    self.notice = Some(Notice::Display(d));
                }
                self.stage = Stage::ReadClock;
            },
            _ => {},
        }
    }
}

} // verus!
