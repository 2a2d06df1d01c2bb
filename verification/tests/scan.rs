use lighthouse::command::Command;
use lighthouse::filter::Filter;
use lighthouse::power_state::PowerState;
use lighthouse::radio::{Fault, Properties, RadioEvent, Reply, Request, CONTROL_CHARACTERISTIC};
use lighthouse::scan::{format_status, Next, RunState, Scanner, Step};

/// A peripheral within reach of the simulated radio.
struct Peripheral {
    name: Option<&'static str>,
    manufacturer_ids: Vec<u16>,
    uuids: Vec<u128>,
    /// What successive reads bring; the last entry goes on for ever.
    reads: Vec<Vec<u8>>,
}

fn station(name: &'static str, status: u8) -> Peripheral {
    Peripheral {
        name: Some(name),
        manufacturer_ids: vec![0x055d],
        uuids: vec![0x1800, CONTROL_CHARACTERISTIC],
        reads: vec![vec![status]],
    }
}

/// What a simulated run did.
struct Report {
    end: RunState,
    lines: Vec<String>,
    /// Peripheral, place of the characteristic, byte.
    writes: Vec<(usize, usize, u8)>,
    /// Peripheral, place of the characteristic.
    reads: Vec<(usize, usize)>,
    connects: Vec<usize>,
    /// How many events of the feed were left unread.
    unread: usize,
    scanner: Scanner,
}

fn discovered(ids: &[usize]) -> Vec<RadioEvent<usize>> {
    ids.iter().map(|id| RadioEvent::DeviceDiscovered(*id)).collect()
}

/// Runs the loop against the peripherals, with the given feed; a request for
/// which `fails` says so is answered as failed.
fn simulate(
    command: Command,
    names: &[&str],
    mut peripherals: Vec<Peripheral>,
    feed: Vec<RadioEvent<usize>>,
    fails: &dyn Fn(&Request<usize>) -> bool,
) -> Report {
    let names: Vec<String> = names.iter().map(|name| name.to_string()).collect();
    let mut feed: std::collections::VecDeque<RadioEvent<usize>> = feed.into();
    let mut scanner = Scanner::new(command, Filter::new(names));
    let mut lines = Vec::new();
    let mut writes = Vec::new();
    let mut reads = Vec::new();
    let mut connects = Vec::new();
    let mut current = 0;
    let mut step: Step<usize> = scanner.start().unwrap();
    loop {
        if let Some(line) = step.line {
            lines.push(line);
        }
        let request = match step.next {
            Next::Finish(end) => {
                assert_eq!(scanner.state(), end);
                let unread = feed.len();
                return Report { end, lines, writes, reads, connects, unread, scanner };
            }
            Next::Ask(request) => request,
        };
        assert_eq!(scanner.state(), RunState::Scanning);
        let reply = if fails(&request) {
            Reply::Failed
        } else {
            match request {
                Request::StartScan | Request::Subscribe => Reply::Done,
                Request::NextEvent => Reply::Event(feed.pop_front()),
                Request::Resolve(id) => {
                    current = id;
                    Reply::Done
                }
                Request::Properties => Reply::Properties(Some(Properties {
                    local_name: peripherals[current].name.map(|name| name.to_string()),
                    manufacturer_data: peripherals[current]
                        .manufacturer_ids
                        .iter()
                        .map(|id| (*id, Vec::new()))
                        .collect(),
                })),
                Request::Connect => {
                    connects.push(current);
                    Reply::Done
                }
                Request::DiscoverServices | Request::Disconnect => Reply::Done,
                Request::Characteristics => {
                    Reply::Characteristics(peripherals[current].uuids.clone())
                }
                Request::Read { characteristic } => {
                    reads.push((current, characteristic));
                    let queue = &mut peripherals[current].reads;
                    let bytes = if queue.len() > 1 { queue.remove(0) } else { queue[0].clone() };
                    Reply::Bytes(bytes)
                }
                Request::Write { characteristic, byte } => {
                    writes.push((current, characteristic, byte));
                    Reply::Done
                }
            }
        };
        step = scanner.step(reply).unwrap();
    }
}

fn never(_: &Request<usize>) -> bool {
    false
}

#[test]
fn standby_command_reports_and_commands_the_one_requested_station() {
    let report = simulate(
        Command::Standby,
        &["LHB-1"],
        vec![station("LHB-1", 0x02)],
        discovered(&[0]),
        &never,
    );
    assert_eq!(report.lines, vec!["LHB-1: STANDBY -> STANDBY"]);
    assert_eq!(report.end, RunState::Completed);
    assert_eq!(report.reads, vec![(0, 1)]);
    assert_eq!(report.writes, vec![(0, 1, 0x02)]);
}

#[test]
fn scan_of_three_stations_prints_three_lines_and_writes_nothing() {
    let report = simulate(
        Command::Scan,
        &[],
        vec![station("LHB-1", 0x00), station("LHB-2", 0x0b), station("LHB-3", 0x09)],
        discovered(&[0, 1, 2]),
        &never,
    );
    assert_eq!(report.lines, vec!["LHB-1: SLEEP", "LHB-2: ON", "LHB-3: BOOTING"]);
    assert!(report.writes.is_empty());
    assert_eq!(report.end, RunState::StreamExhausted);
    assert_eq!(report.reads, vec![(0, 1), (1, 1), (2, 1)]);
}

#[test]
fn empty_read_does_not_end_the_run_and_the_station_is_read_again_later() {
    let mut quiet = station("LHB-1", 0x0b);
    quiet.reads = vec![Vec::new(), vec![0x0b]];
    let report = simulate(
        Command::Scan,
        &[],
        vec![quiet, station("LHB-2", 0x02)],
        vec![
            RadioEvent::DeviceDiscovered(0),
            RadioEvent::DeviceDiscovered(1),
            RadioEvent::DeviceUpdated(0),
        ],
        &never,
    );
    assert_eq!(report.lines, vec!["LHB-2: STANDBY", "LHB-1: ON"]);
    assert_eq!(report.reads, vec![(0, 1), (1, 1), (0, 1)]);
    assert_eq!(report.end, RunState::StreamExhausted);
}

#[test]
fn empty_read_leaves_a_commanded_station_alone() {
    let mut quiet = station("LHB-1", 0x00);
    quiet.reads = vec![Vec::new()];
    let report = simulate(Command::On, &[], vec![quiet], discovered(&[0, 0]), &never);
    assert!(report.lines.is_empty());
    assert!(report.writes.is_empty());
    assert_eq!(report.reads, vec![(0, 1), (0, 1)]);
    assert_eq!(report.end, RunState::StreamExhausted);
}

#[test]
fn empty_read_still_counts_as_the_match_of_a_requested_name() {
    let mut quiet = station("LHB-1", 0x0b);
    quiet.reads = vec![Vec::new(), vec![0x0b]];
    let report = simulate(
        Command::Scan,
        &["LHB-1"],
        vec![quiet],
        vec![RadioEvent::DeviceDiscovered(0), RadioEvent::DeviceUpdated(0)],
        &never,
    );
    assert!(report.lines.is_empty());
    assert_eq!(report.reads, vec![(0, 1)]);
    assert_eq!(report.end, RunState::Completed);
    assert_eq!(report.unread, 1);
    assert!(report.scanner.filter().is_completed());
}

#[test]
fn on_command_writes_the_power_up_byte() {
    let report = simulate(
        Command::On,
        &["LHB-1"],
        vec![station("LHB-1", 0x00)],
        discovered(&[0]),
        &never,
    );
    assert_eq!(report.lines, vec!["LHB-1: SLEEP -> ON"]);
    assert_eq!(report.writes, vec![(0, 1, 0x01)]);
    assert_eq!(report.end, RunState::Completed);
}

#[test]
fn sleep_command_writes_the_sleep_byte() {
    let report = simulate(
        Command::Sleep,
        &[],
        vec![station("LHB-1", 0x0b), station("LHB-2", 0x0c)],
        discovered(&[0, 1]),
        &never,
    );
    assert_eq!(report.lines, vec!["LHB-1: ON -> SLEEP", "LHB-2: UNKNOWN(0x0c) -> SLEEP"]);
    assert_eq!(report.writes, vec![(0, 1, 0x00), (1, 1, 0x00)]);
    assert_eq!(report.end, RunState::StreamExhausted);
}

#[test]
fn only_the_first_byte_of_a_read_is_the_state() {
    let mut chatty = station("LHB-1", 0x02);
    chatty.reads = vec![vec![0x02, 0x0b, 0x00]];
    let report = simulate(Command::Scan, &[], vec![chatty], discovered(&[0]), &never);
    assert_eq!(report.lines, vec!["LHB-1: STANDBY"]);
}

#[test]
fn run_ends_as_soon_as_every_requested_name_was_taken() {
    let report = simulate(
        Command::Scan,
        &["LHB-3", "LHB-1"],
        vec![station("LHB-1", 0x00), station("LHB-2", 0x02), station("LHB-3", 0x0b)],
        discovered(&[1, 0, 1, 2, 0, 1, 2]),
        &never,
    );
    assert_eq!(report.lines, vec!["LHB-1: SLEEP", "LHB-3: ON"]);
    assert_eq!(report.reads, vec![(0, 1), (2, 1)]);
    assert_eq!(report.end, RunState::Completed);
    assert_eq!(report.unread, 3);
}

#[test]
fn station_that_was_taken_is_not_read_again() {
    let report = simulate(
        Command::Standby,
        &["LHB-1", "LHB-2"],
        vec![station("LHB-1", 0x0b), station("LHB-2", 0x0b)],
        vec![
            RadioEvent::DeviceDiscovered(0),
            RadioEvent::DeviceUpdated(0),
            RadioEvent::DeviceUpdated(0),
        ],
        &never,
    );
    assert_eq!(report.lines, vec!["LHB-1: ON -> STANDBY"]);
    assert_eq!(report.writes, vec![(0, 1, 0x02)]);
    assert_eq!(report.connects, vec![0, 0, 0]);
    assert_eq!(report.end, RunState::StreamExhausted);
    assert!(!report.scanner.filter().is_completed());
}

#[test]
fn run_for_a_name_that_never_comes_ends_with_the_feed() {
    let report = simulate(
        Command::On,
        &["LHB-9"],
        vec![station("LHB-1", 0x00)],
        discovered(&[0, 0]),
        &never,
    );
    assert!(report.lines.is_empty());
    assert!(report.reads.is_empty());
    assert!(report.writes.is_empty());
    assert_eq!(report.end, RunState::StreamExhausted);
}

#[test]
fn peripheral_of_another_vendor_is_neither_connected_to_nor_read() {
    let mut other = station("LHB-1", 0x02);
    other.manufacturer_ids = vec![0x004c];
    let report = simulate(Command::Sleep, &["LHB-1"], vec![other], discovered(&[0, 0]), &never);
    assert!(report.connects.is_empty());
    assert!(report.reads.is_empty());
    assert!(report.writes.is_empty());
    assert!(report.lines.is_empty());
    assert_eq!(report.end, RunState::StreamExhausted);
}

#[test]
fn station_without_the_control_characteristic_is_not_read() {
    let mut bare = station("LHB-1", 0x02);
    bare.uuids = vec![0x1800, 0x1801];
    let report = simulate(Command::Scan, &[], vec![bare], discovered(&[0]), &never);
    assert_eq!(report.connects, vec![0]);
    assert!(report.reads.is_empty());
    assert!(report.lines.is_empty());
    assert_eq!(report.end, RunState::StreamExhausted);
}

#[test]
fn empty_feed_ends_the_run_at_once() {
    let report = simulate(Command::Scan, &[], Vec::new(), Vec::new(), &never);
    assert!(report.lines.is_empty());
    assert_eq!(report.end, RunState::StreamExhausted);
}

#[test]
fn scan_that_cannot_start_fails_the_run() {
    let report = simulate(
        Command::Scan,
        &[],
        vec![station("LHB-1", 0x02)],
        discovered(&[0]),
        &|request| *request == Request::StartScan,
    );
    assert_eq!(report.end, RunState::Failed(Fault::Adapter));
    assert_eq!(report.unread, 1);
}

#[test]
fn feed_that_cannot_be_had_fails_the_run() {
    let report = simulate(
        Command::Scan,
        &[],
        vec![station("LHB-1", 0x02)],
        discovered(&[0]),
        &|request| *request == Request::Subscribe,
    );
    assert_eq!(report.end, RunState::Failed(Fault::Adapter));
}

#[test]
fn any_fault_of_the_handshake_fails_the_run() {
    let cases: Vec<(Request<usize>, Fault)> = vec![
        (Request::Resolve(0), Fault::Resolution),
        (Request::Properties, Fault::Resolution),
        (Request::Connect, Fault::Connection),
        (Request::DiscoverServices, Fault::Enumeration),
        (Request::Disconnect, Fault::Connection),
    ];
    for (failing, fault) in cases {
        let report = simulate(
            Command::Scan,
            &[],
            vec![station("LHB-1", 0x02), station("LHB-2", 0x02)],
            discovered(&[0, 1]),
            &|request| *request == failing,
        );
        assert_eq!(report.end, RunState::Failed(fault));
        assert!(report.lines.is_empty());
        assert_eq!(report.unread, 1);
    }
}

#[test]
fn failed_read_fails_the_run() {
    let report = simulate(
        Command::On,
        &[],
        vec![station("LHB-1", 0x02), station("LHB-2", 0x02)],
        discovered(&[0, 1]),
        &|request| matches!(request, Request::Read { .. }),
    );
    assert_eq!(report.end, RunState::Failed(Fault::Transport));
    assert!(report.lines.is_empty());
    assert!(report.writes.is_empty());
    assert_eq!(report.unread, 1);
}

#[test]
fn failed_write_fails_the_run_after_the_line() {
    let report = simulate(
        Command::On,
        &[],
        vec![station("LHB-1", 0x02), station("LHB-2", 0x02)],
        discovered(&[0, 1]),
        &|request| matches!(request, Request::Write { .. }),
    );
    assert_eq!(report.end, RunState::Failed(Fault::Transport));
    assert_eq!(report.lines, vec!["LHB-1: STANDBY -> ON"]);
    assert_eq!(report.unread, 1);
}

#[test]
fn fresh_run_is_scanning_and_starts_once() {
    let mut scanner = Scanner::new(Command::Scan, Filter::new(Vec::new()));
    assert_eq!(scanner.state(), RunState::Scanning);
    assert_eq!(scanner.step::<usize>(Reply::Done), None);
    assert_eq!(
        scanner.start::<usize>(),
        Some(Step { line: None, next: Next::Ask(Request::StartScan) })
    );
    assert_eq!(scanner.start::<usize>(), None);
    assert_eq!(scanner.state(), RunState::Scanning);
    assert_eq!(
        scanner.step::<usize>(Reply::Done),
        Some(Step { line: None, next: Next::Ask(Request::Subscribe) })
    );
}

#[test]
fn run_pulls_the_first_station_once_the_pipeline_is_open() {
    let mut scanner = Scanner::new(Command::Scan, Filter::new(vec!["LHB-1".to_string()]));
    assert!(scanner.start::<usize>().is_some());
    assert!(scanner.step::<usize>(Reply::Done).is_some());
    assert_eq!(
        scanner.step::<usize>(Reply::Done),
        Some(Step { line: None, next: Next::Ask(Request::NextEvent) })
    );
}

#[test]
fn run_that_has_ended_takes_no_more_replies() {
    let mut report = simulate(
        Command::Standby,
        &["LHB-1"],
        vec![station("LHB-1", 0x02)],
        discovered(&[0]),
        &never,
    );
    assert_eq!(report.scanner.state(), RunState::Completed);
    assert_eq!(report.scanner.step::<usize>(Reply::Done), None);
    assert_eq!(report.scanner.step::<usize>(Reply::Event(None)), None);
    assert_eq!(report.scanner.start::<usize>(), None);
    assert_eq!(report.scanner.state(), RunState::Completed);
}

#[test]
fn reply_that_answers_nothing_outstanding_is_not_taken() {
    let mut scanner = Scanner::new(Command::On, Filter::new(Vec::new()));
    let replies: Vec<Reply<usize>> = vec![
        Reply::Done,
        Reply::Done,
        Reply::Event(Some(RadioEvent::DeviceDiscovered(0))),
        Reply::Done,
        Reply::Properties(Some(Properties {
            local_name: Some("LHB-1".to_string()),
            manufacturer_data: [(0x055d, vec![0x01])].into_iter().collect(),
        })),
        Reply::Done,
        Reply::Done,
        Reply::Done,
    ];
    assert!(scanner.start::<usize>().is_some());
    for reply in replies {
        assert!(scanner.step(reply).is_some());
    }
    assert_eq!(scanner.step::<usize>(Reply::Bytes(vec![0x02])), None);
    assert_eq!(
        scanner.step::<usize>(Reply::Characteristics(vec![CONTROL_CHARACTERISTIC])),
        Some(Step { line: None, next: Next::Ask(Request::Read { characteristic: 0 }) })
    );
    assert_eq!(scanner.step::<usize>(Reply::Done), None);
    assert_eq!(scanner.step::<usize>(Reply::Event(None)), None);
    assert_eq!(
        scanner.step::<usize>(Reply::Bytes(vec![0x02])),
        Some(Step {
            line: Some("LHB-1: STANDBY -> ON".to_string()),
            next: Next::Ask(Request::Write { characteristic: 0, byte: 0x01 }),
        })
    );
    assert_eq!(scanner.step::<usize>(Reply::Bytes(vec![0x02])), None);
    assert_eq!(
        scanner.step::<usize>(Reply::Done),
        Some(Step { line: None, next: Next::Ask(Request::NextEvent) })
    );
}

#[test]
fn status_line_of_a_scan_names_the_station_and_its_state() {
    assert_eq!(format_status("LHB-1", PowerState::Standby, None), "LHB-1: STANDBY");
    assert_eq!(format_status("", PowerState::On, None), ": ON");
    assert_eq!(
        format_status("LHB-0A1B2C3D", PowerState::Unknown(0x0f), None),
        "LHB-0A1B2C3D: UNKNOWN(0x0f)"
    );
}

#[test]
fn status_line_of_a_command_adds_the_commanded_state() {
    assert_eq!(
        format_status("LHB-1", PowerState::Standby, Some(PowerState::Standby)),
        "LHB-1: STANDBY -> STANDBY"
    );
    assert_eq!(
        format_status("LHB-1", PowerState::Booting, Some(PowerState::Sleep)),
        "LHB-1: BOOTING -> SLEEP"
    );
    assert_eq!(
        format_status("x", PowerState::Unknown(0xfe), Some(PowerState::On)),
        "x: UNKNOWN(0xfe) -> ON"
    );
}

#[test]
fn commands_ask_for_their_states_and_a_scan_for_none() {
    assert_eq!(Command::On.target(), Some(PowerState::On));
    assert_eq!(Command::Sleep.target(), Some(PowerState::Sleep));
    assert_eq!(Command::Standby.target(), Some(PowerState::Standby));
    assert_eq!(Command::Scan.target(), None);
}
