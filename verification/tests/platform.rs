// Paths, commands and the reading of their outcomes.

use gemini_unlock::error::AppError;
use gemini_unlock::pids::PidSet;
use gemini_unlock::platform::{
    chrome_state_path, command_failed, current_os, find_command, force_command, list_command,
    path_variable, pgrep_pids, pgrep_running, quit_command, send_signal, signal_command,
    tasklist_running, CommandOutput, OsKind, ProcessName, Signal,
};

fn output(code: Option<i32>, stdout: &str, stderr: &str) -> CommandOutput {
    CommandOutput { code, stdout: stdout.to_string(), stderr: stderr.to_string() }
}

fn pids_of(list: &[i32]) -> PidSet {
    let mut set = PidSet::new();
    for pid in list {
        set = set.insert(*pid);
    }
    set
}

#[test]
fn test_os_kind_equality() {
    assert_eq!(OsKind::Macos, OsKind::Macos);
    assert_ne!(OsKind::Macos, OsKind::Linux);
    assert_ne!(OsKind::Linux, OsKind::Windows);
}

#[test]
fn test_current_os_valid() {
    let os = current_os("linux");
    assert!(os.is_ok(), "Should detect current OS");
    let os_kind = os.unwrap();
    // Verify returned OS is supported
    assert!(matches!(os_kind, OsKind::Macos | OsKind::Linux | OsKind::Windows));
}

#[test]
fn test_chrome_state_path_formats() {
    // Test macOS path format
    let macos_path = chrome_state_path(OsKind::Macos, Some("/Users/test"));
    assert!(macos_path.is_ok());
    let path = macos_path.unwrap();
    assert!(path.contains("Local State"));

    // Test Linux path format
    let linux_path = chrome_state_path(OsKind::Linux, Some("/tmp/test_home"));
    assert!(linux_path.is_ok());
    let path = linux_path.unwrap();
    assert!(path.contains("Local State"));

    // Test Windows path format
    let windows_path = chrome_state_path(OsKind::Windows, Some("C:\\Users\\Test\\AppData\\Local"));
    assert!(windows_path.is_ok());
    let path = windows_path.unwrap();
    assert!(path.contains("Local State"));
}

#[test]
fn test_command_failed_error_formatting() {
    // What `sh -c "echo error output >&2; echo stdout; exit 1"` leaves behind
    let output = output(Some(1), "stdout\n", "error output\n");

    let err = command_failed("test command", &output);
    assert!(matches!(err, AppError::CommandFailed { .. }));
    if let AppError::CommandFailed { command, details } = err {
        assert_eq!(command, "test command");
        // Verify error info contains stdout and stderr
        println!("Error details: {details}");
        assert_eq!(details, "stdout: stdout; stderr: error output");
    }
}

#[test]
fn test_os_kind_copy() {
    // Test OsKind implements Copy
    let os1 = OsKind::Macos;
    let os2 = os1; // Should trigger Copy, not Move
    assert_eq!(os1, OsKind::Macos);
    assert_eq!(os2, OsKind::Macos);
}

#[test]
fn current_os_knows_three_names() {
    assert_eq!(current_os("macos"), Ok(OsKind::Macos));
    assert_eq!(current_os("linux"), Ok(OsKind::Linux));
    assert_eq!(current_os("windows"), Ok(OsKind::Windows));
    assert_eq!(current_os("freebsd"), Err(AppError::UnsupportedOs("freebsd".to_string())));
    assert_eq!(current_os("Linux"), Err(AppError::UnsupportedOs("Linux".to_string())));
    assert_eq!(current_os(""), Err(AppError::UnsupportedOs(String::new())));
}

#[test]
fn state_path_per_system() {
    assert_eq!(
        chrome_state_path(OsKind::Macos, Some("/Users/me")).unwrap(),
        "/Users/me/Library/Application Support/Google/Chrome/Local State"
    );
    assert_eq!(
        chrome_state_path(OsKind::Linux, Some("/home/me")).unwrap(),
        "/home/me/.config/google-chrome/Local State"
    );
    assert_eq!(
        chrome_state_path(OsKind::Windows, Some("C:/Users/me/AppData/Local")).unwrap(),
        "C:/Users/me/AppData/Local/Google/Chrome/User Data/Local State"
    );
}

#[test]
fn state_path_adds_no_second_separator() {
    assert_eq!(
        chrome_state_path(OsKind::Linux, Some("/home/me/")).unwrap(),
        "/home/me/.config/google-chrome/Local State"
    );
    assert_eq!(
        chrome_state_path(OsKind::Linux, Some("/")).unwrap(),
        "/.config/google-chrome/Local State"
    );
    assert_eq!(
        chrome_state_path(OsKind::Linux, Some("")).unwrap(),
        ".config/google-chrome/Local State"
    );
}

#[test]
fn state_path_needs_its_variable() {
    assert_eq!(
        chrome_state_path(OsKind::Macos, None),
        Err(AppError::MissingEnv("HOME".to_string()))
    );
    assert_eq!(
        chrome_state_path(OsKind::Linux, None),
        Err(AppError::MissingEnv("HOME".to_string()))
    );
    assert_eq!(
        chrome_state_path(OsKind::Windows, None),
        Err(AppError::MissingEnv("LOCALAPPDATA".to_string()))
    );
    assert_eq!(path_variable(OsKind::Macos), "HOME");
    assert_eq!(path_variable(OsKind::Linux), "HOME");
    assert_eq!(path_variable(OsKind::Windows), "LOCALAPPDATA");
}

#[test]
fn process_names_and_aliases() {
    assert_eq!(ProcessName::ChromeApp.as_str(), "Google Chrome");
    assert_eq!(ProcessName::Chrome.as_str(), "chrome");
    assert_eq!(ProcessName::GoogleChrome.as_str(), "google-chrome");
    assert_eq!(ProcessName::ChromeApp.next(), None);
    assert_eq!(ProcessName::Chrome.next(), Some(ProcessName::GoogleChrome));
    assert_eq!(ProcessName::GoogleChrome.next(), None);
}

#[test]
fn commands_as_they_are_run() {
    let find = find_command("chrome", false);
    assert_eq!(find.program, "pgrep");
    assert_eq!(find.args, vec!["-x".to_string(), "chrome".to_string()]);
    assert_eq!(find.label, "pgrep -x \"chrome\"");
    assert!(!find.capture);
    assert!(find_command("Google Chrome", true).capture);

    let list = list_command();
    assert_eq!(list.program, "tasklist");
    assert_eq!(list.args, vec!["/FI".to_string(), "IMAGENAME eq chrome.exe".to_string()]);
    assert_eq!(list.label, "tasklist /FI \"IMAGENAME eq chrome.exe\"");
    assert!(list.capture);

    let quit = quit_command();
    assert_eq!(quit.program, "osascript");
    assert_eq!(quit.args, vec!["-e".to_string(), "quit app \"Google Chrome\"".to_string()]);
    assert_eq!(quit.label, "osascript -e 'quit app \"Google Chrome\"'");

    let force = force_command();
    assert_eq!(force.program, "taskkill");
    assert_eq!(force.args, vec!["/IM".to_string(), "chrome.exe".to_string(), "/F".to_string()]);
    assert_eq!(force.label, "taskkill /IM chrome.exe /F");
}

#[test]
fn signal_command_lists_pids_in_order() {
    let pids = pids_of(&[300, 7, 42, 7]);
    let term = signal_command(Signal::Term, &pids);
    assert_eq!(term.program, "kill");
    assert_eq!(
        term.args,
        vec!["-TERM".to_string(), "7".to_string(), "42".to_string(), "300".to_string()]
    );
    assert_eq!(term.label, "kill -TERM 7 42 300");
    assert!(term.capture);
    let kill = signal_command(Signal::Kill, &pids_of(&[5]));
    assert_eq!(kill.args, vec!["-KILL".to_string(), "5".to_string()]);
    assert_eq!(kill.label, "kill -KILL 5");
}

#[test]
fn pid_set_is_sorted_and_without_duplicates() {
    let set = pids_of(&[5, 3, 9, 3, 5, -1, 2147483647]);
    assert_eq!(set.as_slice(), &[-1, 3, 5, 9, 2147483647]);
    assert!(!set.is_empty());
    assert!(PidSet::new().is_empty());
    assert_eq!(PidSet::new().as_slice(), &[] as &[i32]);
}

#[test]
fn pgrep_exit_codes() {
    assert_eq!(pgrep_running("chrome", Some(0)), Ok(true));
    assert_eq!(pgrep_running("chrome", Some(1)), Ok(false));
    assert_eq!(
        pgrep_running("chrome", Some(2)),
        Err(AppError::CommandFailed {
            command: "pgrep -x \"chrome\"".to_string(),
            details: "退出码 2".to_string(),
        })
    );
    assert_eq!(
        pgrep_running("Google Chrome", Some(-3)),
        Err(AppError::CommandFailed {
            command: "pgrep -x \"Google Chrome\"".to_string(),
            details: "退出码 -3".to_string(),
        })
    );
    assert_eq!(
        pgrep_running("chrome", None),
        Err(AppError::CommandFailed {
            command: "pgrep -x \"chrome\"".to_string(),
            details: "被信号终止".to_string(),
        })
    );
}

#[test]
fn tasklist_names_the_image_in_any_case() {
    let listing = "\nImage Name   PID\n=====\nChrome.EXE   1234 Console\n";
    assert_eq!(tasklist_running(&output(Some(0), listing, "")), Ok(true));
    assert_eq!(
        tasklist_running(&output(Some(0), "INFO: No tasks are running.\n", "")),
        Ok(false)
    );
    assert_eq!(tasklist_running(&output(Some(0), "", "")), Ok(false));
    assert_eq!(tasklist_running(&output(Some(0), "chrome.ex", "")), Ok(false));
    assert_eq!(tasklist_running(&output(Some(0), "xchrome.exe", "")), Ok(true));
}

#[test]
fn tasklist_failure_is_a_command_failure() {
    assert_eq!(
        tasklist_running(&output(Some(1), "chrome.exe", "ERROR: bad filter\r\n")),
        Err(AppError::CommandFailed {
            command: "tasklist /FI \"IMAGENAME eq chrome.exe\"".to_string(),
            details: "stdout: chrome.exe; stderr: ERROR: bad filter".to_string(),
        })
    );
}

#[test]
fn command_failed_without_output_shows_exit_code() {
    assert_eq!(
        command_failed("kill -TERM 1", &output(Some(1), " \n", "\t")),
        AppError::CommandFailed {
            command: "kill -TERM 1".to_string(),
            details: "Exit code Some(1)".to_string(),
        }
    );
    assert_eq!(
        command_failed("x", &output(None, "", "")),
        AppError::CommandFailed { command: "x".to_string(), details: "Exit code None".to_string() }
    );
    assert_eq!(
        command_failed("x", &output(Some(-2147483648), "", "")),
        AppError::CommandFailed {
            command: "x".to_string(),
            details: "Exit code Some(-2147483648)".to_string(),
        }
    );
    assert_eq!(
        command_failed("x", &output(Some(3), "", " only errors ")),
        AppError::CommandFailed {
            command: "x".to_string(),
            details: "stdout: ; stderr: only errors".to_string(),
        }
    );
}

#[test]
fn pgrep_pids_collects_every_word() {
    let found = pgrep_pids("chrome", &output(Some(0), "12\n7\n 300 \n12\n", ""), PidSet::new());
    assert_eq!(found.unwrap().as_slice(), &[7, 12, 300]);
    let more = pgrep_pids("google-chrome", &output(Some(0), "7\n8\n", ""), pids_of(&[7, 12, 300]));
    assert_eq!(more.unwrap().as_slice(), &[7, 8, 12, 300]);
    let none = pgrep_pids("chrome", &output(Some(0), "", ""), pids_of(&[4]));
    assert_eq!(none.unwrap().as_slice(), &[4]);
}

#[test]
fn pgrep_pids_keeps_the_set_when_nothing_is_found() {
    let kept = pgrep_pids("chrome", &output(Some(1), "99\n", ""), pids_of(&[1, 2]));
    assert_eq!(kept.unwrap().as_slice(), &[1, 2]);
}

#[test]
fn pgrep_pids_is_strict_about_words() {
    let bad = pgrep_pids("chrome", &output(Some(0), "12\nabc\nxyz\n", ""), PidSet::new());
    assert_eq!(
        bad.unwrap_err(),
        AppError::CommandFailed {
            command: "pgrep -x \"chrome\"".to_string(),
            details: "无法解析 pid: abc".to_string(),
        }
    );
    let large = pgrep_pids("chrome", &output(Some(0), "2147483648", ""), PidSet::new());
    assert_eq!(
        large.unwrap_err(),
        AppError::CommandFailed {
            command: "pgrep -x \"chrome\"".to_string(),
            details: "无法解析 pid: 2147483648".to_string(),
        }
    );
}

#[test]
fn pgrep_pids_failures() {
    assert_eq!(
        pgrep_pids("chrome", &output(Some(3), "1\n", ""), PidSet::new()).unwrap_err(),
        AppError::CommandFailed {
            command: "pgrep -x \"chrome\"".to_string(),
            details: "退出码 3".to_string(),
        }
    );
    assert_eq!(
        pgrep_pids("chrome", &output(None, "1\n", ""), PidSet::new()).unwrap_err(),
        AppError::CommandFailed {
            command: "pgrep -x \"chrome\"".to_string(),
            details: "Terminated by signal".to_string(),
        }
    );
}

#[test]
fn send_signal_reads_the_exit_code() {
    let pids = pids_of(&[10, 20]);
    assert_eq!(send_signal(&pids, Signal::Term, &output(Some(0), "", "")), Ok(()));
    assert_eq!(
        send_signal(&pids, Signal::Kill, &output(Some(1), "", "kill: (20): No such process\n")),
        Err(AppError::CommandFailed {
            command: "kill -KILL 10 20".to_string(),
            details: "stdout: ; stderr: kill: (20): No such process".to_string(),
        })
    );
    assert_eq!(
        send_signal(&pids, Signal::Term, &output(None, "", "")),
        Err(AppError::CommandFailed {
            command: "kill -TERM 10 20".to_string(),
            details: "Exit code None".to_string(),
        })
    );
}

#[test]
fn state_path_is_what_std_joins() {
    for base in ["/home/me", "/home/me/", "", "/", "relative/dir", "a//", "/with space/x"] {
        let joined = std::path::PathBuf::from(base)
            .join(".config")
            .join("google-chrome")
            .join("Local State");
        assert_eq!(
            chrome_state_path(OsKind::Linux, Some(base)).unwrap(),
            joined.to_str().unwrap(),
            "{:?}",
            base
        );
        let joined = std::path::PathBuf::from(base)
            .join("Library")
            .join("Application Support")
            .join("Google")
            .join("Chrome")
            .join("Local State");
        assert_eq!(
            chrome_state_path(OsKind::Macos, Some(base)).unwrap(),
            joined.to_str().unwrap(),
            "{:?}",
            base
        );
    }
}

#[test]
fn send_signal_to_nobody_is_done() {
    let nobody = PidSet::new();
    assert_eq!(send_signal(&nobody, Signal::Term, &output(Some(1), "", "kill: usage\n")), Ok(()));
    assert_eq!(send_signal(&nobody, Signal::Kill, &output(None, "", "")), Ok(()));
    assert_eq!(send_signal(&nobody, Signal::Kill, &output(Some(0), "", "")), Ok(()));
}

#[test]
fn pids_come_out_strictly_ascending() {
    let first = pgrep_pids("chrome", &output(Some(0), "9\n3\n3\n-4\n", ""), PidSet::new());
    let both = pgrep_pids("google-chrome", &output(Some(0), "3\n100\n9\n", ""), first.unwrap());
    let set = both.unwrap();
    let list = set.as_slice();
    assert_eq!(list, &[-4, 3, 9, 100]);
    assert!(list.windows(2).all(|pair| pair[0] < pair[1]));
}
