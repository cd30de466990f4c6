use plant::button::ButtonState;
use plant::control::{notice_text, Command, Event, Monitor, Notice, Stage, TransportFault};
use plant::display::{Display, DisplayError};
use plant::render::ClockReading;
use plant::sensors::{BusFault, Light, Reading, Resolution, SensorError, SoilMoisture, Temperature};

fn text(chars: &[char]) -> String {
    chars.iter().collect()
}

/// Mock collaborators for one device: each answers a command with an event.
struct Bench {
    display: Display,
    clears: usize,
    writes: Vec<String>,
    logs: Vec<String>,
    moisture: Option<u16>,
    light: Option<u16>,
    transport_fails: bool,
}

impl Bench {
    fn new(moisture: Option<u16>, light: Option<u16>, transport_fails: bool) -> Bench {
        let mut display = Display::new(16, 4);
        display.initialize(true).unwrap();
        Bench { display, clears: 0, writes: Vec::new(), logs: Vec::new(), moisture, light, transport_fails }
    }

    fn answer(&mut self, m: &Monitor, c: Command) -> Event {
        match c {
            Command::ReadClock => Event::Clock(ClockReading { hours: 13, minutes: 5, seconds: 42 }),
            Command::StartConversion => Event::ConversionStarted(Ok(Resolution::Bits12)),
            Command::Wait(_) => Event::Waited,
            Command::ReadScratchpad => Event::Scratchpad(Ok(0x00a2)),
            Command::ReadMoisture => Event::Moisture(self.moisture),
            Command::ReadLight => Event::Light(self.light),
            Command::ClearDisplay => {
                self.clears += 1;
                Event::Cleared(self.display.clear())
            }
            Command::WriteDisplay => {
                let block = m.block();
                self.writes.push(text(&block));
                Event::Written(self.display.write(&block))
            }
            Command::Log(n) => {
                self.logs.push(text(&notice_text(n)));
                if self.transport_fails {
                    Event::Logged(Err(TransportFault))
                } else {
                    Event::Logged(Ok(()))
                }
            }
        }
    }

    /// Runs one cycle: up to the next request for the clock.
    fn cycle(&mut self, m: &mut Monitor) -> Vec<Command> {
        let mut commands = Vec::new();
        loop {
            let c = m.command();
            commands.push(c);
            let e = self.answer(m, c);
            m.step(e);
            if m.command() == Command::ReadClock {
                return commands;
            }
        }
    }
}

#[test]
fn one_cycle_clears_once_and_writes_the_block_once() {
    let mut m = Monitor::new(10);
    let mut bench = Bench::new(Some(512), Some(900), false);
    let commands = bench.cycle(&mut m);
    assert_eq!(
        commands,
        vec![
            Command::ReadClock,
            Command::StartConversion,
            Command::Wait(750),
            Command::ReadScratchpad,
            Command::ReadMoisture,
            Command::ReadLight,
            Command::ClearDisplay,
            Command::WriteDisplay,
        ]
    );
    assert_eq!(bench.clears, 1);
    assert_eq!(bench.writes, vec!["10.13\u{b0}C\nMoist: 50.0%\nLight: 88.0%\n13:05:42".to_string()]);
    assert!(bench.writes[0].contains("10.13\u{b0}C"));
    assert!(bench.writes[0].contains("13:05:42"));
    assert!(bench.logs.is_empty());
}

#[test]
fn conversion_wait_follows_reported_resolution() {
    let mut m = Monitor::new(10);
    m.step(Event::Clock(ClockReading { hours: 1, minutes: 2, seconds: 3 }));
    m.step(Event::ConversionStarted(Ok(Resolution::Bits9)));
    assert_eq!(m.command(), Command::Wait(94));
    assert_eq!(m.stage, Stage::AwaitConversion(94));
}

#[test]
fn failing_transport_does_not_change_the_loop() {
    let mut good = Monitor::new(10);
    let mut bad = Monitor::new(10);
    let mut good_bench = Bench::new(None, Some(900), false);
    let mut bad_bench = Bench::new(None, Some(900), true);
    for _ in 0..3 {
        let a = good_bench.cycle(&mut good);
        let b = bad_bench.cycle(&mut bad);
        assert_eq!(a, b);
        assert_eq!(good, bad);
    }
    assert_eq!(good_bench.writes, bad_bench.writes);
    assert_eq!(bad_bench.logs.len(), 3);
    assert_eq!(bad_bench.logs[0], "moisture: read failure\r\n");
    assert_eq!(bad_bench.writes[0], "10.13\u{b0}C\nMoist: --.-%\nLight: 88.0%\n13:05:42");
}

#[test]
fn failed_read_keeps_last_value() {
    let mut m = Monitor::new(10);
    let mut bench = Bench::new(Some(512), Some(900), false);
    bench.cycle(&mut m);
    bench.light = None;
    bench.cycle(&mut m);
    assert_eq!(bench.logs, vec!["light: read failure\r\n".to_string()]);
    assert_eq!(bench.writes[1], bench.writes[0]);
}

#[test]
fn bus_fault_on_conversion_skips_to_moisture() {
    let mut m = Monitor::new(10);
    m.step(Event::Clock(ClockReading { hours: 1, minutes: 2, seconds: 3 }));
    m.step(Event::ConversionStarted(Err(BusFault::WireNotHigh)));
    assert_eq!(m.command(), Command::Log(Notice::Temperature(SensorError::BusFault(BusFault::WireNotHigh))));
    m.step(Event::Logged(Ok(())));
    assert_eq!(m.command(), Command::ReadMoisture);
    assert_eq!(m.temperature, None);
}

#[test]
fn malformed_scratchpad_is_a_read_failure() {
    let mut m = Monitor::new(10);
    m.step(Event::Clock(ClockReading { hours: 1, minutes: 2, seconds: 3 }));
    m.step(Event::ConversionStarted(Ok(Resolution::Bits12)));
    m.step(Event::Waited);
    m.step(Event::Scratchpad(Ok(0x8000)));
    assert_eq!(m.command(), Command::Log(Notice::Temperature(SensorError::ReadFailure)));
}

#[test]
fn display_failure_is_logged_and_cycle_restarts() {
    let mut m = Monitor::new(10);
    m.step(Event::Clock(ClockReading { hours: 1, minutes: 2, seconds: 3 }));
    m.step(Event::ConversionStarted(Ok(Resolution::Bits12)));
    m.step(Event::Waited);
    m.step(Event::Scratchpad(Ok(0x0191)));
    m.step(Event::Moisture(Some(1)));
    m.step(Event::Light(Some(2)));
    m.step(Event::Cleared(Err(DisplayError::DriverFault)));
    assert_eq!(m.command(), Command::Log(Notice::Display(DisplayError::DriverFault)));
    m.step(Event::Logged(Err(TransportFault)));
    assert_eq!(m.command(), Command::ReadClock);
}

#[test]
fn unexpected_event_is_ignored() {
    let mut m = Monitor::new(10);
    let before = m;
    m.step(Event::Waited);
    m.step(Event::Logged(Ok(())));
    assert_eq!(m, before);
}

#[test]
fn notice_lines_name_part_and_kind() {
    assert_eq!(text(&notice_text(Notice::Temperature(SensorError::NoDevice))), "temperature: no device\r\n");
    assert_eq!(
        text(&notice_text(Notice::Temperature(SensorError::BusFault(BusFault::Port)))),
        "temperature: bus fault\r\n"
    );
    assert_eq!(text(&notice_text(Notice::Display(DisplayError::Uninitialized))), "display: uninitialized\r\n");
    assert_eq!(text(&notice_text(Notice::Display(DisplayError::DrawOutOfBounds))), "display: out of bounds\r\n");
    assert_eq!(text(&notice_text(Notice::Light(SensorError::ReadFailure))), "light: read failure\r\n");
}

#[test]
fn discovery_without_matching_device_is_no_device() {
    assert!(matches!(Temperature::new(Ok(()), Ok(None)), Err(SensorError::NoDevice)));
}

#[test]
fn discovery_reports_bus_faults() {
    assert!(matches!(
        Temperature::new(Err(BusFault::WireNotHigh), Ok(None)),
        Err(SensorError::BusFault(BusFault::WireNotHigh))
    ));
    assert!(matches!(
        Temperature::new(Ok(()), Err(BusFault::CrcMismatch(3, 4))),
        Err(SensorError::BusFault(BusFault::CrcMismatch(3, 4)))
    ));
}

#[test]
fn discovery_checks_family_code() {
    let other = [0x10, 1, 2, 3, 4, 5, 6, 7];
    assert!(matches!(
        Temperature::new(Ok(()), Ok(Some(other))),
        Err(SensorError::BusFault(BusFault::FamilyCodeMismatch(0x28, 0x10)))
    ));
    let probe = [0x28, 1, 2, 3, 4, 5, 6, 7];
    match Temperature::new(Ok(()), Ok(Some(probe))) {
        Ok(t) => assert_eq!(t.device_address(), probe),
        Err(e) => panic!("discovery failed: {:?}", e),
    }
}

#[test]
fn analog_probe_failure_is_read_failure() {
    let s = SoilMoisture::new(10);
    assert_eq!(s.read(Some(7)), Ok(Reading::Moisture { raw: 7, resolution_bits: 10 }));
    assert_eq!(s.read(None), Err(SensorError::ReadFailure));
    let l = Light::new(12);
    assert_eq!(l.read(Some(9)), Ok(Reading::Light { raw: 9, resolution_bits: 12 }));
    assert_eq!(l.read(None), Err(SensorError::ReadFailure));
}

#[test]
fn button_flag_is_acknowledged_once() {
    let s = ButtonState::from_flag(false).falling_edge();
    assert_eq!(s, ButtonState::Pending);
    let (s, clear) = s.acknowledge();
    assert!(clear);
    assert_eq!(s, ButtonState::Idle);
    let (s, clear) = s.acknowledge();
    assert!(!clear);
    assert_eq!(s, ButtonState::Idle);
}
