// The monitor and the terminator, driven by a simulated operating system.

use gemini_unlock::driver::{Action, Event};
use gemini_unlock::error::AppError;
use gemini_unlock::lifecycle::{
    is_chrome_running, stop_chrome, wait_for_process_stop, Phase, Probe, Query, Stage, Stopper,
    POLL_INTERVAL_MS, WAIT_BUDGET_MS,
};
use gemini_unlock::platform::{CommandOutput, OsKind, ProcessName};

fn exited(code: i32, stdout: &str) -> Event {
    Event::Exited(CommandOutput {
        code: Some(code),
        stdout: stdout.to_string(),
        stderr: String::new(),
    })
}

fn label(action: &Option<Action>) -> String {
    match action {
        Some(Action::Run(command)) => command.label.clone(),
        Some(Action::Sleep { millis }) => format!("sleep {}", millis),
        Some(other) => format!("{:?}", other),
        None => "done".to_string(),
    }
}

/// A browser that runs until it is stopped, and an operating system that
/// answers the terminator's commands about it.
struct World {
    now_ms: u64,
    /// The time from which on the browser is gone.
    gone_at: Option<u64>,
    /// How long the browser takes to go once asked, or `None` if it ignores
    /// the request.
    yields_after: Option<u64>,
    /// Whether the browser goes when made to.
    dies_when_killed: bool,
    log: Vec<String>,
}

impl World {
    fn new(yields_after: Option<u64>, dies_when_killed: bool) -> World {
        World { now_ms: 5_000, gone_at: None, yields_after, dies_when_killed, log: Vec::new() }
    }

    fn alive(&self) -> bool {
        match self.gone_at {
            Some(at) => self.now_ms < at,
            None => true,
        }
    }

    fn perform(&mut self, action: &Action) -> Event {
        match action {
            Action::Sleep { millis } => {
                self.log.push(format!("sleep {}", millis));
                self.now_ms += millis;
                Event::Woke
            }
            Action::Run(command) => {
                self.log.push(command.label.clone());
                self.now_ms += 10;
                match command.program.as_str() {
                    "pgrep" => {
                        let name = command.args[1].as_str();
                        let found = self.alive() && (name == "chrome" || name == "Google Chrome");
                        let stdout = if found && command.capture { "4242\n4243\n" } else { "" };
                        exited(if found { 0 } else { 1 }, stdout)
                    }
                    "tasklist" => {
                        let stdout = if self.alive() {
                            "chrome.exe    4242 Console    1    100,000 K\r\n"
                        } else {
                            "INFO: No tasks are running which match the specified criteria.\r\n"
                        };
                        exited(0, stdout)
                    }
                    "kill" if command.args[0] == "-KILL" => {
                        if self.dies_when_killed {
                            self.gone_at = Some(self.now_ms);
                        }
                        exited(0, "")
                    }
                    "taskkill" => {
                        if self.dies_when_killed {
                            self.gone_at = Some(self.now_ms);
                        }
                        exited(0, "")
                    }
                    "kill" | "osascript" => {
                        if let Some(delay) = self.yields_after {
                            self.gone_at = Some(self.now_ms + delay);
                        }
                        exited(0, "")
                    }
                    other => panic!("unexpected program {}", other),
                }
            }
            other => panic!("unexpected action {:?}", other),
        }
    }

    fn stop(&mut self, os: OsKind) -> Result<(), AppError> {
        let mut stopper = Stopper::start(os);
        let mut steps = 0;
        loop {
            let action = match stopper.action() {
                Some(action) => action,
                None => break,
            };
            let event = self.perform(&action);
            stopper = stop_chrome(stopper, &event, self.now_ms);
            steps += 1;
            assert!(steps < 1000, "the terminator does not come to an end");
        }
        assert!(stopper.is_finished());
        match stopper.stage {
            Stage::Finished(outcome) => outcome,
            other => panic!("not finished: {:?}", other),
        }
    }

    fn count(&self, label: &str) -> usize {
        self.log.iter().filter(|line| line.as_str() == label).count()
    }
}

#[test]
fn graceful_stop_on_macos_succeeds_without_escalation() {
    let mut world = World::new(Some(700), true);
    assert_eq!(world.stop(OsKind::Macos), Ok(()));
    assert_eq!(world.log[0], "osascript -e 'quit app \"Google Chrome\"'");
    assert_eq!(world.count("osascript -e 'quit app \"Google Chrome\"'"), 1);
    assert!(world.log.iter().all(|line| !line.starts_with("kill")));
    // checks at 10, 320 and 630 ms find the browser, the one at 940 ms does not
    assert_eq!(world.count("sleep 300"), 3);
    assert_eq!(world.count("pgrep -x \"Google Chrome\""), 5);
}

#[test]
fn graceful_stop_on_linux_succeeds_without_escalation() {
    let mut world = World::new(Some(100), true);
    assert_eq!(world.stop(OsKind::Linux), Ok(()));
    assert_eq!(
        world.log,
        vec![
            "pgrep -x \"chrome\"",
            "pgrep -x \"google-chrome\"",
            "kill -TERM 4242 4243",
            // the wait: one check, which finds the browser
            "pgrep -x \"chrome\"",
            "sleep 300",
            // and one that finds neither name
            "pgrep -x \"chrome\"",
            "pgrep -x \"google-chrome\"",
            // the check that decides on escalation
            "pgrep -x \"chrome\"",
            "pgrep -x \"google-chrome\"",
            // the last check
            "pgrep -x \"chrome\"",
            "pgrep -x \"google-chrome\"",
        ]
    );
}

#[test]
fn linux_escalates_to_kill_after_the_first_wait() {
    let mut world = World::new(None, true);
    assert_eq!(world.stop(OsKind::Linux), Ok(()));
    assert_eq!(world.count("kill -TERM 4242 4243"), 1);
    assert_eq!(world.count("kill -KILL 4242 4243"), 1);
    let term = world.log.iter().position(|line| line == "kill -TERM 4242 4243").unwrap();
    let kill = world.log.iter().position(|line| line == "kill -KILL 4242 4243").unwrap();
    assert!(term < kill);
    // the first wait used up its budget: ten checks, a sleep after each
    let sleeps = world.log[term..kill].iter().filter(|line| *line == "sleep 300").count();
    assert_eq!(sleeps, 10);
    // the second wait ended at its first check
    assert!(world.log[kill..].iter().all(|line| line != "sleep 300"));
}

#[test]
fn linux_fails_when_the_browser_survives_both_signals() {
    let mut world = World::new(None, false);
    assert_eq!(world.stop(OsKind::Linux), Err(AppError::ChromeStillRunning));
    assert_eq!(world.count("kill -TERM 4242 4243"), 1);
    assert_eq!(world.count("kill -KILL 4242 4243"), 1);
    assert_eq!(world.count("sleep 300"), 20);
}

#[test]
fn macos_does_not_escalate() {
    let mut world = World::new(None, true);
    assert_eq!(world.stop(OsKind::Macos), Err(AppError::ChromeStillRunning));
    assert_eq!(world.count("osascript -e 'quit app \"Google Chrome\"'"), 1);
    assert!(world.log.iter().all(|line| !line.starts_with("kill")));
    assert_eq!(world.count("sleep 300"), 10);
}

#[test]
fn windows_stops_by_force_at_once() {
    let mut world = World::new(None, true);
    assert_eq!(world.stop(OsKind::Windows), Ok(()));
    assert_eq!(
        world.log,
        vec![
            "taskkill /IM chrome.exe /F",
            "tasklist /FI \"IMAGENAME eq chrome.exe\"",
            "tasklist /FI \"IMAGENAME eq chrome.exe\"",
        ]
    );
}

#[test]
fn linux_without_processes_is_done_at_once() {
    let mut world = World::new(None, true);
    world.gone_at = Some(0);
    assert_eq!(world.stop(OsKind::Linux), Ok(()));
    assert_eq!(world.log, vec!["pgrep -x \"chrome\"", "pgrep -x \"google-chrome\""]);
}

#[test]
fn failed_stop_request_is_a_command_failure() {
    let stopper = Stopper::start(OsKind::Macos);
    let event = Event::Exited(CommandOutput {
        code: Some(1),
        stdout: String::new(),
        stderr: "execution error: Application isn't running. (-600)\n".to_string(),
    });
    let stopper = stop_chrome(stopper, &event, 0);
    assert_eq!(stopper.action().map(|_| ()), None);
    match stopper.stage {
        Stage::Finished(Err(e)) => assert_eq!(
            e,
            AppError::CommandFailed {
                command: "osascript -e 'quit app \"Google Chrome\"'".to_string(),
                details: "stdout: ; stderr: execution error: Application isn't running. (-600)"
                    .to_string(),
            }
        ),
        other => panic!("unexpected stage {:?}", other),
    }
}

#[test]
fn command_that_cannot_start_is_an_io_failure() {
    let stopper = stop_chrome(
        Stopper::start(OsKind::Windows),
        &Event::Failed("program not found".to_string()),
        0,
    );
    match stopper.stage {
        Stage::Finished(Err(e)) => assert_eq!(e, AppError::Io("program not found".to_string())),
        other => panic!("unexpected stage {:?}", other),
    }
    let probe = is_chrome_running(
        Probe::start(OsKind::Linux),
        &Event::Failed("No such file or directory (os error 2)".to_string()),
    );
    match probe {
        Probe::Answered(Err(e)) => {
            assert_eq!(e, AppError::Io("No such file or directory (os error 2)".to_string()))
        }
        other => panic!("unexpected probe {:?}", other),
    }
}

#[test]
fn unparsable_pid_stops_the_terminator() {
    let stopper = stop_chrome(Stopper::start(OsKind::Linux), &exited(0, "12\nx1\n"), 0);
    match stopper.stage {
        Stage::Finished(Err(e)) => assert_eq!(
            e,
            AppError::CommandFailed {
                command: "pgrep -x \"chrome\"".to_string(),
                details: "无法解析 pid: x1".to_string(),
            }
        ),
        other => panic!("unexpected stage {:?}", other),
    }
}

#[test]
fn pids_of_both_names_are_signalled_once() {
    let stopper = stop_chrome(Stopper::start(OsKind::Linux), &exited(0, "30\n10\n"), 0);
    assert_eq!(label(&stopper.action()), "pgrep -x \"google-chrome\"");
    let stopper = stop_chrome(stopper, &exited(0, "10\n20\n"), 0);
    match stopper.action() {
        Some(Action::Run(command)) => {
            assert_eq!(command.program, "kill");
            assert_eq!(command.args, vec!["-TERM", "10", "20", "30"]);
        }
        other => panic!("unexpected action {:?}", other),
    }
}

#[test]
fn monitor_on_linux_asks_for_the_second_name_only_when_needed() {
    let probe = Probe::start(OsKind::Linux);
    assert_eq!(probe.command().unwrap().label, "pgrep -x \"chrome\"");
    assert!(!probe.command().unwrap().capture);
    let found = is_chrome_running(probe, &exited(0, ""));
    assert!(matches!(found, Probe::Answered(Ok(true))));
    assert!(found.command().is_none());

    let probe = is_chrome_running(Probe::start(OsKind::Linux), &exited(1, ""));
    assert!(matches!(probe, Probe::Asking(Query::ByName(ProcessName::GoogleChrome))));
    assert_eq!(probe.command().unwrap().label, "pgrep -x \"google-chrome\"");
    let found = is_chrome_running(probe, &exited(0, ""));
    assert!(matches!(found, Probe::Answered(Ok(true))));

    let probe = is_chrome_running(Probe::start(OsKind::Linux), &exited(1, ""));
    let missing = is_chrome_running(probe, &exited(1, ""));
    assert!(matches!(missing, Probe::Answered(Ok(false))));
}

#[test]
fn monitor_on_macos_asks_once() {
    let probe = Probe::start(OsKind::Macos);
    assert_eq!(probe.command().unwrap().label, "pgrep -x \"Google Chrome\"");
    assert!(matches!(is_chrome_running(probe, &exited(1, "")), Probe::Answered(Ok(false))));
    let probe = is_chrome_running(Probe::start(OsKind::Macos), &exited(2, ""));
    match probe {
        Probe::Answered(Err(e)) => assert_eq!(
            e,
            AppError::CommandFailed {
                command: "pgrep -x \"Google Chrome\"".to_string(),
                details: "退出码 2".to_string(),
            }
        ),
        other => panic!("unexpected probe {:?}", other),
    }
}

#[test]
fn monitor_on_windows_reads_the_listing() {
    let probe = Probe::start(OsKind::Windows);
    assert!(probe.command().unwrap().capture);
    let found = is_chrome_running(probe, &exited(0, "Chrome.exe  77"));
    assert!(matches!(found, Probe::Answered(Ok(true))));
    let missing = is_chrome_running(Probe::start(OsKind::Windows), &exited(0, "INFO: none"));
    assert!(matches!(missing, Probe::Answered(Ok(false))));
    let failed = is_chrome_running(Probe::start(OsKind::Windows), &exited(5, ""));
    assert!(matches!(failed, Probe::Answered(Err(AppError::CommandFailed { .. }))));
}

#[test]
fn monitor_ignores_answers_it_does_not_await() {
    let probe = is_chrome_running(Probe::start(OsKind::Macos), &Event::Woke);
    assert!(matches!(probe, Probe::Asking(Query::ByName(ProcessName::ChromeApp))));
    let probe = is_chrome_running(probe, &Event::Exists(true));
    assert!(matches!(probe, Probe::Asking(Query::ByName(ProcessName::ChromeApp))));
    let done = is_chrome_running(Probe::Answered(Ok(true)), &exited(1, ""));
    assert!(matches!(done, Probe::Answered(Ok(true))));
}

#[test]
fn wait_budget_and_interval() {
    assert_eq!(WAIT_BUDGET_MS, 3000);
    assert_eq!(POLL_INTERVAL_MS, 300);
    let stage = wait_for_process_stop(OsKind::Macos, Phase::Graceful, 1_000, 3, 3_999);
    assert!(matches!(
        stage,
        Stage::Polling { phase: Phase::Graceful, started_ms: 1_000, attempts: 4, .. }
    ));
    let stage = wait_for_process_stop(OsKind::Macos, Phase::Graceful, 1_000, 3, 4_000);
    assert!(matches!(stage, Stage::Confirming { .. }));
    let stage = wait_for_process_stop(OsKind::Linux, Phase::Graceful, 1_000, 3, 4_000);
    assert!(matches!(stage, Stage::Checking { .. }));
    let stage = wait_for_process_stop(OsKind::Linux, Phase::Forced, 1_000, 3, 9_000);
    assert!(matches!(stage, Stage::Confirming { .. }));
    // a clock that runs backwards spends nothing
    let stage = wait_for_process_stop(OsKind::Linux, Phase::Forced, 1_000, 3, 0);
    assert!(matches!(stage, Stage::Polling { attempts: 4, .. }));
    let stage = wait_for_process_stop(OsKind::Linux, Phase::Forced, 0, u64::MAX, 0);
    assert!(matches!(stage, Stage::Polling { attempts: u64::MAX, .. }));
}
