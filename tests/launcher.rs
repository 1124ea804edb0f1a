use webdriver_launcher::browser::{launch_command, port_argument, push_decimal, Browser, StreamMode};
use webdriver_launcher::driver::{Driver, DriverError};
use webdriver_launcher::lifecycle::{Action, Coordinator, Event, Failure, Outcome, Stage};
use webdriver_launcher::port::{PortScan, ScanStep};
use webdriver_launcher::readiness::{decide, step_budget, ProbeDecision, ProbeEvent, POLL_INTERVAL_MS};

#[test]
fn chrome_command_line() {
    let c = launch_command(Browser::Chrome, 9515).unwrap();
    assert_eq!(c.program, "chromedriver");
    assert_eq!(c.args, vec!["--port=9515".to_string()]);
    assert_eq!(c.stdin, StreamMode::Null);
    assert_eq!(c.stdout, StreamMode::Piped);
    assert_eq!(c.stderr, StreamMode::Piped);
}

#[test]
fn gecko_command_line() {
    let c = launch_command(Browser::Gecko, 4444).unwrap();
    assert_eq!(c.program, "geckodriver");
    assert_eq!(c.args, vec!["--port=4444".to_string()]);
    assert_eq!(c.stdin, StreamMode::Null);
    assert_eq!(c.stdout, StreamMode::Piped);
    assert_eq!(c.stderr, StreamMode::Piped);
}

#[test]
fn no_driver_has_no_command() {
    assert!(launch_command(Browser::NoDriver, 9515).is_none());
}

#[test]
fn port_argument_edges() {
    assert_eq!(port_argument(0), "--port=0");
    assert_eq!(port_argument(9), "--port=9");
    assert_eq!(port_argument(10), "--port=10");
    assert_eq!(port_argument(65535), "--port=65535");
}

#[test]
fn decimal_appends() {
    let mut s = String::from("x");
    push_decimal(&mut s, 1200);
    assert_eq!(s, "x1200");
}

#[test]
fn free_hint_is_kept() {
    let mut scan = PortScan::new(9515, None);
    assert_eq!(scan.candidate(), 9515);
    assert_eq!(scan.record(true), ScanStep::Found(9515));
    assert!(scan.finished());
}

#[test]
fn busy_hint_moves_to_next_port() {
    let mut scan = PortScan::new(9515, None);
    assert_eq!(scan.record(false), ScanStep::Next { busy: 9515, next: 9516 });
    assert_eq!(scan.candidate(), 9516);
    assert!(!scan.finished());
    assert_eq!(scan.record(true), ScanStep::Found(9516));
}

#[test]
fn scan_wraps_at_top_of_range() {
    let mut scan = PortScan::new(65535, None);
    assert_eq!(scan.record(false), ScanStep::Next { busy: 65535, next: 0 });
    assert_eq!(scan.record(false), ScanStep::Next { busy: 0, next: 1 });
    assert_eq!(scan.record(true), ScanStep::Found(1));
}

#[test]
fn scan_result_lies_above_busy_start() {
    let mut scan = PortScan::new(8000, None);
    let mut found = None;
    for i in 0..5 {
        match scan.record(i == 4) {
            ScanStep::Found(p) => found = Some(p),
            ScanStep::Next { .. } => {}
            ScanStep::Exhausted => panic!("no cap was set"),
        }
    }
    assert_eq!(found, Some(8004));
}

#[test]
fn capped_scan_gives_up() {
    let mut scan = PortScan::new(100, Some(2));
    assert_eq!(scan.record(false), ScanStep::Next { busy: 100, next: 101 });
    assert_eq!(scan.record(false), ScanStep::Exhausted);
    assert!(scan.finished());
}

#[test]
fn zero_cap_is_finished_at_once() {
    let scan = PortScan::new(100, Some(0));
    assert!(scan.finished());
}

#[test]
fn readiness_connected_is_ready() {
    assert_eq!(decide(0, 30_000, ProbeEvent::Connected), ProbeDecision::Ready);
    assert_eq!(decide(29_999, 30_000, ProbeEvent::Connected), ProbeDecision::Ready);
}

#[test]
fn readiness_first_attempt_gets_one_interval() {
    assert_eq!(decide(0, 30_000, ProbeEvent::Started), ProbeDecision::Connect(POLL_INTERVAL_MS));
    assert_eq!(decide(0, 50, ProbeEvent::Started), ProbeDecision::Connect(50));
}

#[test]
fn readiness_failure_sleeps_one_interval() {
    assert_eq!(decide(0, 30_000, ProbeEvent::Refused), ProbeDecision::Sleep(100));
    assert_eq!(decide(250, 30_000, ProbeEvent::Refused), ProbeDecision::Sleep(100));
}

#[test]
fn readiness_sleep_is_cut_at_deadline() {
    assert_eq!(decide(100, 150, ProbeEvent::Refused), ProbeDecision::Sleep(50));
    assert_eq!(decide(150, 150, ProbeEvent::Woke), ProbeDecision::TimedOut);
}

#[test]
fn readiness_times_out_at_deadline() {
    assert_eq!(decide(30_000, 30_000, ProbeEvent::Refused), ProbeDecision::TimedOut);
    assert_eq!(decide(30_080, 30_000, ProbeEvent::Woke), ProbeDecision::TimedOut);
    assert_eq!(decide(0, 0, ProbeEvent::Started), ProbeDecision::TimedOut);
}

#[test]
fn step_budget_values() {
    assert_eq!(step_budget(0, 30_000), 100);
    assert_eq!(step_budget(29_970, 30_000), 30);
    assert_eq!(step_budget(30_000, 30_000), 0);
}

/// Simulates polling a port that never accepts: each attempt fails after
/// `attempt_ms` (at most its budget), each sleep lasts as told. Returns the
/// number of attempts and the time the timeout was reported.
fn simulate_refusing_port(timeout: u64, attempt_ms: u64) -> (u64, u64) {
    let mut now = 0;
    let mut attempts = 0;
    let mut event = ProbeEvent::Started;
    loop {
        match decide(now, timeout, event) {
            ProbeDecision::Connect(b) => {
                attempts += 1;
                now += attempt_ms.min(b);
                event = ProbeEvent::Refused;
            }
            ProbeDecision::Sleep(w) => {
                now += w;
                event = ProbeEvent::Woke;
            }
            ProbeDecision::TimedOut => return (attempts, now),
            ProbeDecision::Ready => panic!("never connected"),
        }
    }
}

#[test]
fn timeout_reported_within_one_interval_of_deadline() {
    for (timeout, attempt_ms) in [(1_000, 0), (1_000, 20), (150, 0), (150, 5), (30_000, 3)] {
        let (attempts, now) = simulate_refusing_port(timeout, attempt_ms);
        assert!(now >= timeout);
        assert!(now <= timeout + POLL_INTERVAL_MS);
        assert!(attempts <= timeout / POLL_INTERVAL_MS + 1);
    }
}

#[test]
fn short_deadline_allows_two_attempts() {
    assert_eq!(simulate_refusing_port(150, 0), (2, 150));
}

#[test]
fn chrome_run_succeeds_and_tears_down() {
    // Hint 9515 is busy, so negotiation settles on 9516.
    let mut scan = PortScan::new(9515, None);
    assert_eq!(scan.record(false), ScanStep::Next { busy: 9515, next: 9516 });
    let port = match scan.record(true) {
        ScanStep::Found(p) => p,
        other => panic!("unexpected {:?}", other),
    };
    assert_eq!(port, 9516);
    let mut c = Coordinator::new(Browser::Chrome);
    assert_eq!(c.on_event(Event::PortChosen(port)), Action::Spawn(9516));
    assert_eq!(c.state().stage, Stage::PortNegotiated);
    assert_eq!(c.on_event(Event::Spawned), Action::AwaitReadiness(9516));
    assert!(c.state().process_live);
    assert_eq!(c.on_event(Event::Reachable), Action::RunClient(9516));
    assert_eq!(c.state().stage, Stage::ClientRunning);
    assert_eq!(
        c.on_event(Event::ClientFinished(Outcome::Success)),
        Action::TearDown { kill: true, outcome: Outcome::Success }
    );
    assert_eq!(c.state().stage, Stage::TornDown);
    assert!(!c.state().process_live);
    assert!(!c.accepts(Event::Cancelled));
}

#[test]
fn no_driver_run_skips_spawn() {
    let mut c = Coordinator::new(Browser::NoDriver);
    assert_eq!(c.on_event(Event::PortChosen(4444)), Action::AwaitReadiness(4444));
    assert!(!c.accepts(Event::Spawned));
    assert_eq!(c.on_event(Event::Reachable), Action::RunClient(4444));
    assert_eq!(
        c.on_event(Event::ClientFinished(Outcome::Success)),
        Action::TearDown { kill: false, outcome: Outcome::Success }
    );
}

#[test]
fn spawn_failure_tears_down() {
    let mut c = Coordinator::new(Browser::Gecko);
    c.on_event(Event::PortChosen(4444));
    assert_eq!(
        c.on_event(Event::SpawnFailed),
        Action::TearDown { kill: false, outcome: Outcome::Failed(Failure::ProcessStart) }
    );
}

#[test]
fn readiness_timeout_kills_process() {
    let mut c = Coordinator::new(Browser::Chrome);
    c.on_event(Event::PortChosen(9515));
    c.on_event(Event::Spawned);
    assert_eq!(
        c.on_event(Event::ReadinessTimedOut),
        Action::TearDown { kill: true, outcome: Outcome::Failed(Failure::StartTimeout) }
    );
}

#[test]
fn client_errors_are_passed_on() {
    for failure in [Failure::Connection, Failure::ClientBuild] {
        let mut c = Coordinator::new(Browser::Chrome);
        c.on_event(Event::PortChosen(9515));
        c.on_event(Event::Spawned);
        c.on_event(Event::Reachable);
        assert_eq!(
            c.on_event(Event::ClientFinished(Outcome::Failed(failure))),
            Action::TearDown { kill: true, outcome: Outcome::Failed(failure) }
        );
    }
}

#[test]
fn cancellation_tears_down_from_every_stage() {
    let mut c = Coordinator::new(Browser::Chrome);
    assert!(c.accepts(Event::Cancelled));
    assert_eq!(
        c.on_event(Event::Cancelled),
        Action::TearDown { kill: false, outcome: Outcome::Failed(Failure::Cancelled) }
    );
    let mut c = Coordinator::new(Browser::Chrome);
    c.on_event(Event::PortChosen(9515));
    c.on_event(Event::Spawned);
    c.on_event(Event::Reachable);
    assert_eq!(
        c.on_event(Event::Cancelled),
        Action::TearDown { kill: true, outcome: Outcome::Failed(Failure::Cancelled) }
    );
}

#[test]
fn out_of_order_events_are_not_accepted() {
    let c = Coordinator::new(Browser::Chrome);
    assert!(!c.accepts(Event::Spawned));
    assert!(!c.accepts(Event::Reachable));
    assert!(!c.accepts(Event::ClientFinished(Outcome::Success)));
}

#[test]
fn detached_driver_has_nothing_to_tear_down() {
    let mut d = Driver::detached();
    assert!(!d.has_process());
    assert!(!d.teardown());
}

#[test]
fn spawn_error_becomes_process_start_error() {
    let err = std::io::Error::new(std::io::ErrorKind::NotFound, "no such binary");
    match Driver::from_spawn(Err(err)) {
        Err(e) => {
            assert_eq!(e.failure(), Failure::ProcessStart);
            match e {
                DriverError::ProcessStartError(inner) => {
                    assert_eq!(inner.kind(), std::io::ErrorKind::NotFound);
                    assert_eq!(inner.to_string(), "no such binary");
                }
                _ => panic!("wrong variant"),
            }
        }
        Ok(_) => panic!("spawn error was lost"),
    }
}

#[test]
fn start_timeout_failure_kind() {
    assert_eq!(DriverError::WebDriverStartTimeout.failure(), Failure::StartTimeout);
}

/// Whether process `pid` has stopped running: it is gone, or a zombie.
async fn not_running(pid: u32) -> bool {
    match tokio::fs::read_to_string(format!("/proc/{}/stat", pid)).await {
        Err(_) => true,
        Ok(stat) => {
            let state = stat.rsplit(')').next().unwrap_or("").trim_start();
            state.starts_with('Z') || state.starts_with('X')
        }
    }
}

#[test]
fn supervised_process_is_killed_on_teardown() {
    let rt = tokio::runtime::Builder::new_current_thread().enable_all().build().unwrap();
    rt.block_on(async {
        let spawned = tokio::process::Command::new("sleep").arg("30").spawn();
        let pid = spawned.as_ref().unwrap().id().unwrap();
        let mut d = Driver::from_spawn(spawned).ok().unwrap();
        assert!(d.has_process());
        assert!(!not_running(pid).await);
        assert!(d.teardown());
        assert!(!d.has_process());
        assert!(!d.teardown());
        let mut stopped = false;
        for _ in 0..50 {
            if not_running(pid).await {
                stopped = true;
                break;
            }
            tokio::time::sleep(std::time::Duration::from_millis(20)).await;
        }
        assert!(stopped);
    });
}

#[test]
fn dropped_driver_kills_its_process() {
    let rt = tokio::runtime::Builder::new_current_thread().enable_all().build().unwrap();
    rt.block_on(async {
        let spawned = tokio::process::Command::new("sleep").arg("30").spawn();
        let pid = spawned.as_ref().unwrap().id().unwrap();
        {
            let _driver = Driver::from_spawn(spawned).ok().unwrap();
        }
        let mut stopped = false;
        for _ in 0..50 {
            if not_running(pid).await {
                stopped = true;
                break;
            }
            tokio::time::sleep(std::time::Duration::from_millis(20)).await;
        }
        assert!(stopped);
    });
}
