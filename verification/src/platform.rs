//! What differs from one operating system to the next: where the preference
//! store lies, which commands look for the browser and stop it, and how the
//! outcome of each command is read.
//!
//! Nothing here runs a command. A [`Command`] says what to run, and a
//! [`CommandOutput`] is what came back from it.

use vstd::prelude::*;
use crate::error::{AppError, AppResult, ErrorView};
use crate::pids::{increasing, listing, PidSet};
use crate::text::{
    followed_by, contains_lowercased, decimal, decimal_text, join, joined, mentions, parse_i32,
    parse_int, same_text, split_words, texts, trim, trimmed, words,
};

verus! {

/// Supported operating system types.
#[derive(Clone, Copy, Debug, PartialEq, Eq, Structural)]
pub enum OsKind {
    /// macOS.
    Macos,
    /// Linux.
    Linux,
    /// Windows.
    Windows,
}

/// The operating system that goes by `name`, if it is a supported one.
pub open spec fn os_named(name: Seq<char>) -> Option<OsKind> {
    if name == "macos"@ {
        Some(OsKind::Macos)
    } else if name == "linux"@ {
        Some(OsKind::Linux)
    } else if name == "windows"@ {
        Some(OsKind::Windows)
    } else {
        None
    }
}

/// The operating system that goes by `name`, which is the name that the
/// running system gives itself.
pub fn current_os(name: &str) -> (r: AppResult<OsKind>)
    ensures
        match r {
            Ok(os) => os_named(name@) == Some(os),
            Err(e) => os_named(name@) is None && e@ == ErrorView::UnsupportedOs(name@),
        },
{
    if same_text(name, "macos") {
        Ok(OsKind::Macos)
    } else if same_text(name, "linux") {
        Ok(OsKind::Linux)
    } else if same_text(name, "windows") {
        Ok(OsKind::Windows)
    } else {
        Err(AppError::UnsupportedOs(name.to_owned()))
    }
}

/// The name of the environment variable that holds the directory under which
/// the preference store lies.
pub open spec fn path_variable_name(os: OsKind) -> Seq<char> {
    match os {
        OsKind::Windows => "LOCALAPPDATA"@,
        _ => "HOME"@,
    }
}

/// The name of the environment variable that holds the directory under which
/// the preference store lies.
pub fn path_variable(os: OsKind) -> (r: &'static str)
    ensures
        r@ == path_variable_name(os),
{
    match os {
        OsKind::Windows => "LOCALAPPDATA",
        _ => "HOME",
    }
}

/// Where the preference store lies below the base directory.
pub open spec fn state_file(os: OsKind) -> Seq<char> {
    match os {
        OsKind::Macos => "Library/Application Support/Google/Chrome/Local State"@,
        OsKind::Linux => ".config/google-chrome/Local State"@,
        OsKind::Windows => "Google/Chrome/User Data/Local State"@,
    }
}

/// The path `below` taken from the directory `base`: a separator stands
/// between the two unless `base` is empty or ends in one.
pub open spec fn path_below(base: Seq<char>, below: Seq<char>) -> Seq<char> {
    if base.len() == 0 {
        below
    } else if base.last() == '/' {
        base + below
    } else {
        base + "/"@ + below
    }
}

/// The path `below` taken from the directory `base`: a separator stands
/// between the two unless `base` is empty or ends in one.
pub fn join_path(base: &str, below: &str) -> (r: String)
    ensures
        r@ == path_below(base@, below@),
{
    let chars = crate::text::chars_of(base);
    if chars.len() == 0 {
        below.to_owned()
    } else if chars[chars.len() - 1] == '/' {
        followed_by(base, below)
    } else {
        let mut path = followed_by(base, "/");
        path.append(below);
        path
    }
}

/// The path of the preference store, given the value of the variable that
/// [`path_variable`] names, or `None` where that variable is not set.
pub fn chrome_state_path(os: OsKind, base: Option<&str>) -> (r: AppResult<String>)
    ensures
        match base {
            Some(dir) => r matches Ok(path) && path@ == path_below(dir@, state_file(os)),
            None => r matches Err(e) && e@ == ErrorView::MissingEnv(path_variable_name(os)),
        },
{
    let dir = match base {
        Some(dir) => dir,
        None => {
            return Err(AppError::MissingEnv(path_variable(os).to_owned()));
        },
    };
    let below = match os {
        OsKind::Macos => "Library/Application Support/Google/Chrome/Local State",
        OsKind::Linux => ".config/google-chrome/Local State",
        OsKind::Windows => "Google/Chrome/User Data/Local State",
    };
    Ok(join_path(dir, below))
}

/// A name under which the browser's process may run.
#[derive(Clone, Copy, Debug, PartialEq, Eq, Structural)]
pub enum ProcessName {
    /// The application's name on macOS.
    ChromeApp,
    /// The name of the binary on Linux.
    Chrome,
    /// The name under which other Linux packages install the binary.
    GoogleChrome,
}

impl ProcessName {
    /// The name as the process table holds it.
    pub open spec fn text(self) -> Seq<char> {
        match self {
            ProcessName::ChromeApp => "Google Chrome"@,
            ProcessName::Chrome => "chrome"@,
            ProcessName::GoogleChrome => "google-chrome"@,
        }
    }

    /// The name to look for where this one is not found, if there is one.
    pub open spec fn alias(self) -> Option<ProcessName> {
        match self {
            ProcessName::Chrome => Some(ProcessName::GoogleChrome),
            _ => None,
        }
    }

    /// The name as the process table holds it.
    pub fn as_str(self) -> (r: &'static str)
        ensures
            r@ == self.text(),
    {
        match self {
            ProcessName::ChromeApp => "Google Chrome",
            ProcessName::Chrome => "chrome",
            ProcessName::GoogleChrome => "google-chrome",
        }
    }

    /// The name to look for where this one is not found, if there is one.
    pub fn next(self) -> (r: Option<ProcessName>)
        ensures
            r == self.alias(),
    {
        match self {
            ProcessName::Chrome => Some(ProcessName::GoogleChrome),
            _ => None,
        }
    }
}

/// How strongly a process is asked to end.
#[derive(Clone, Copy, Debug, PartialEq, Eq, Structural)]
pub enum Signal {
    /// The request to end, which a process may handle.
    Term,
    /// The order to end, which it cannot.
    Kill,
}

/// A command for the driver to run.
#[derive(Debug)]
pub struct Command {
    /// The program to start.
    pub program: String,
    /// Its arguments, in order.
    pub args: Vec<String>,
    /// The command as a failure report shows it.
    pub label: String,
    /// Whether what the command prints is to be captured, or left to go where
    /// the tool's own output goes.
    pub capture: bool,
}

/// A [`Command`] as a mathematical value.
pub struct CommandView {
    pub program: Seq<char>,
    pub args: Seq<Seq<char>>,
    pub label: Seq<char>,
    pub capture: bool,
}

impl View for Command {
    type V = CommandView;

    open spec fn view(&self) -> CommandView {
        CommandView {
            program: self.program@,
            args: texts(self.args@),
            label: self.label@,
            capture: self.capture,
        }
    }
}

/// What a command left behind.
#[derive(Debug)]
pub struct CommandOutput {
    /// The exit code, or `None` where a signal ended the command.
    pub code: Option<i32>,
    /// What it printed, where that was captured.
    pub stdout: String,
    /// What it printed as errors, where that was captured.
    pub stderr: String,
}

/// A [`CommandOutput`] as a mathematical value.
pub struct OutputView {
    pub code: Option<i32>,
    pub stdout: Seq<char>,
    pub stderr: Seq<char>,
}

impl View for CommandOutput {
    type V = OutputView;

    open spec fn view(&self) -> OutputView {
        OutputView { code: self.code, stdout: self.stdout@, stderr: self.stderr@ }
    }
}

impl OutputView {
    /// Whether the command ended with exit code zero.
    pub open spec fn succeeded(self) -> bool {
        self.code == Some(0i32)
    }
}

/// How a failure report shows the lookup of one process name.
pub open spec fn find_label(name: Seq<char>) -> Seq<char> {
    "pgrep -x \""@ + name + "\""@
}

/// The command that looks for processes named exactly `name`.
pub open spec fn find_command_view(name: Seq<char>, capture: bool) -> CommandView {
    CommandView { program: "pgrep"@, args: seq!["-x"@, name], label: find_label(name), capture }
}

/// The command that looks for processes named exactly `name`.
pub fn find_command(name: &str, capture: bool) -> (r: Command)
    ensures
        r@ == find_command_view(name@, capture),
{
    let mut args: Vec<String> = Vec::new();
    args.push("-x".to_owned());
    args.push(name.to_owned());
    let mut label = followed_by("pgrep -x \"", name);
    label.append("\"");
    assert(texts(args@) =~= seq!["-x"@, name@]);
    Command { program: "pgrep".to_owned(), args, label, capture }
}

/// The command that lists the running processes of the browser's image.
pub open spec fn list_command_view() -> CommandView {
    CommandView {
        program: "tasklist"@,
        args: seq!["/FI"@, "IMAGENAME eq chrome.exe"@],
        label: "tasklist /FI \"IMAGENAME eq chrome.exe\""@,
        capture: true,
    }
}

/// The command that lists the running processes of the browser's image.
pub fn list_command() -> (r: Command)
    ensures
        r@ == list_command_view(),
{
    let mut args: Vec<String> = Vec::new();
    args.push("/FI".to_owned());
    args.push("IMAGENAME eq chrome.exe".to_owned());
    assert(texts(args@) =~= seq!["/FI"@, "IMAGENAME eq chrome.exe"@]);
    Command {
        program: "tasklist".to_owned(),
        args,
        label: "tasklist /FI \"IMAGENAME eq chrome.exe\"".to_owned(),
        capture: true,
    }
}

/// The command that asks the browser, as an application, to quit.
pub open spec fn quit_command_view() -> CommandView {
    CommandView {
        program: "osascript"@,
        args: seq!["-e"@, "quit app \"Google Chrome\""@],
        label: "osascript -e 'quit app \"Google Chrome\"'"@,
        capture: true,
    }
}

/// The command that asks the browser, as an application, to quit.
pub fn quit_command() -> (r: Command)
    ensures
        r@ == quit_command_view(),
{
    let mut args: Vec<String> = Vec::new();
    args.push("-e".to_owned());
    args.push("quit app \"Google Chrome\"".to_owned());
    assert(texts(args@) =~= seq!["-e"@, "quit app \"Google Chrome\""@]);
    Command {
        program: "osascript".to_owned(),
        args,
        label: "osascript -e 'quit app \"Google Chrome\"'".to_owned(),
        capture: true,
    }
}

/// The command that ends every process of the browser's image by force.
pub open spec fn force_command_view() -> CommandView {
    CommandView {
        program: "taskkill"@,
        args: seq!["/IM"@, "chrome.exe"@, "/F"@],
        label: "taskkill /IM chrome.exe /F"@,
        capture: true,
    }
}

/// The command that ends every process of the browser's image by force.
pub fn force_command() -> (r: Command)
    ensures
        r@ == force_command_view(),
{
    let mut args: Vec<String> = Vec::new();
    args.push("/IM".to_owned());
    args.push("chrome.exe".to_owned());
    args.push("/F".to_owned());
    assert(texts(args@) =~= seq!["/IM"@, "chrome.exe"@, "/F"@]);
    Command {
        program: "taskkill".to_owned(),
        args,
        label: "taskkill /IM chrome.exe /F".to_owned(),
        capture: true,
    }
}

/// The name of a signal as `kill` takes it.
pub open spec fn signal_name(signal: Signal) -> Seq<char> {
    match signal {
        Signal::Term => "TERM"@,
        Signal::Kill => "KILL"@,
    }
}

/// The identifiers of a set in decimal, in increasing order.
pub open spec fn pid_texts(pids: Set<i32>) -> Seq<Seq<char>> {
    listing(pids).map_values(|pid: i32| decimal(pid as int))
}

/// The command that sends one signal to every process of a set, in one
/// batch.
pub open spec fn signal_command_view(signal: Signal, pids: Set<i32>) -> CommandView {
    CommandView {
        program: "kill"@,
        args: seq!["-"@ + signal_name(signal)] + pid_texts(pids),
        label: "kill -"@ + signal_name(signal) + " "@ + joined(pid_texts(pids), " "@),
        capture: true,
    }
}

/// The command that sends one signal to every process of a set, in one
/// batch.
pub fn signal_command(signal: Signal, pids: &PidSet) -> (r: Command)
    ensures
        r@ == signal_command_view(signal, pids@),
        increasing(listing(pids@)),
        listing(pids@).to_set() == pids@,
{
    let name = match signal {
        Signal::Term => "TERM",
        Signal::Kill => "KILL",
    };
    let list = pids.as_slice();
    let mut numbers: Vec<String> = Vec::new();
    let mut args: Vec<String> = Vec::new();
    args.push(followed_by("-", name));
    let ghost flag = seq!["-"@ + signal_name(signal)];
    assert(texts(args@) =~= flag);
    assert(texts(numbers@) =~= pid_texts(pids@).take(0));
    let mut i: usize = 0;
    while i < list.len()
        invariant
            i <= list.len(),
            list@ == listing(pids@),
            flag == seq!["-"@ + signal_name(signal)],
            texts(numbers@) == pid_texts(pids@).take(i as int),
            texts(args@) == flag + pid_texts(pids@).take(i as int),
        decreases list.len() - i,
    {
        let number = decimal_text(list[i]);
        let ghost args_before = texts(args@);
        let copy = number.clone();
        args.push(copy);
        numbers.push(number);
        assert(pid_texts(pids@)[i as int] == number@);
        assert(texts(numbers@) =~= pid_texts(pids@).take(i + 1));
        assert(texts(args@) =~= args_before.push(number@));
        assert(texts(args@) =~= flag + pid_texts(pids@).take(i + 1));
        i += 1;
    }
    assert(pid_texts(pids@).take(i as int) =~= pid_texts(pids@));
    let mut label = followed_by("kill -", name);
    label.append(" ");
    let all = join(&numbers, " ");
    label.append(all.as_str());
    Command { program: "kill".to_owned(), args, label, capture: true }
}

/// How a failure report shows an exit code, present or not.
pub open spec fn code_text(code: Option<i32>) -> Seq<char> {
    match code {
        Some(n) => "Some("@ + decimal(n as int) + ")"@,
        None => "None"@,
    }
}

/// The failure of the command shown as `label` that left `output` behind:
/// it holds what the command printed, or, where it printed nothing but white
/// space, its exit code.
pub open spec fn failure_view(label: Seq<char>, output: OutputView) -> ErrorView {
    let stdout = trimmed(output.stdout);
    let stderr = trimmed(output.stderr);
    ErrorView::CommandFailed {
        command: label,
        details: if stdout.len() == 0 && stderr.len() == 0 {
            "Exit code "@ + code_text(output.code)
        } else {
            "stdout: "@ + stdout + "; stderr: "@ + stderr
        },
    }
}

/// The failure of the command shown as `label` that left `output` behind.
pub fn command_failed(label: &str, output: &CommandOutput) -> (e: AppError)
    ensures
        e@ == failure_view(label@, output@),
{
    let stdout = trim(output.stdout.as_str());
    let stderr = trim(output.stderr.as_str());
    let details = if stdout.as_str().is_empty() && stderr.as_str().is_empty() {
        match output.code {
            Some(n) => {
                let number = decimal_text(n);
                let mut text = followed_by("Exit code Some(", number.as_str());
                text.append(")");
                proof {
                    reveal_strlit("Exit code Some(");
                    reveal_strlit("Exit code ");
                    reveal_strlit("Some(");
                    assert("Exit code Some("@ =~= "Exit code "@ + "Some("@);
                    assert(text@ =~= "Exit code "@ + code_text(output.code));
                }
                text
            },
            None => {
                proof {
                    reveal_strlit("Exit code None");
                    reveal_strlit("Exit code ");
                    reveal_strlit("None");
                    assert("Exit code None"@ =~= "Exit code "@ + "None"@);
                }
                "Exit code None".to_owned()
            },
        }
    } else {
        let mut text = followed_by("stdout: ", stdout.as_str());
        text.append("; stderr: ");
        text.append(stderr.as_str());
        text
    };
    AppError::CommandFailed { command: label.to_owned(), details }
}

/// The failure of a lookup that ended neither with "found" nor with "not
/// found": it holds the exit code, or `killed` where a signal ended the
/// lookup.
pub open spec fn lookup_failure(name: Seq<char>, code: Option<i32>, killed: Seq<char>) -> ErrorView {
    ErrorView::CommandFailed {
        command: find_label(name),
        details: match code {
            Some(n) => "退出码 "@ + decimal(n as int),
            None => killed,
        },
    }
}

fn lookup_failed(name: &str, code: Option<i32>, killed: &str) -> (e: AppError)
    ensures
        e@ == lookup_failure(name@, code, killed@),
{
    let mut command = followed_by("pgrep -x \"", name);
    command.append("\"");
    let details = match code {
        Some(n) => {
            let number = decimal_text(n);
            followed_by("退出码 ", number.as_str())
        },
        None => killed.to_owned(),
    };
    AppError::CommandFailed { command, details }
}

/// What the exit code of a lookup by name says: exit code 0 is "found", exit
/// code 1 is "not found", and anything else is a failure of the lookup.
pub open spec fn lookup_outcome(name: Seq<char>, code: Option<i32>) -> Result<bool, ErrorView> {
    if code == Some(0i32) {
        Ok(true)
    } else if code == Some(1i32) {
        Ok(false)
    } else {
        Err(lookup_failure(name, code, "被信号终止"@))
    }
}

/// Reads the exit code of the lookup of `name`: whether a process of that
/// name runs.
pub fn pgrep_running(name: &str, code: Option<i32>) -> (r: AppResult<bool>)
    ensures
        match r {
            Ok(found) => lookup_outcome(name@, code) == Ok::<bool, ErrorView>(found),
            Err(e) => lookup_outcome(name@, code) == Err::<bool, ErrorView>(e@),
        },
{
    if code == Some(0) {
        Ok(true)
    } else if code == Some(1) {
        Ok(false)
    } else {
        Err(lookup_failed(name, code, "被信号终止"))
    }
}

/// What the process listing says: whether it names the browser's image. A
/// listing that did not end with exit code zero is a failure.
pub open spec fn listing_outcome(output: OutputView) -> Result<bool, ErrorView> {
    if output.succeeded() {
        Ok(mentions(output.stdout, "chrome.exe"@))
    } else {
        Err(failure_view(list_command_view().label, output))
    }
}

/// Reads the process listing: whether it names the browser's image.
pub fn tasklist_running(output: &CommandOutput) -> (r: AppResult<bool>)
    ensures
        match r {
            Ok(found) => listing_outcome(output@) == Ok::<bool, ErrorView>(found),
            Err(e) => listing_outcome(output@) == Err::<bool, ErrorView>(e@),
        },
{
    if output.code == Some(0) {
        Ok(contains_lowercased(output.stdout.as_str(), "chrome.exe"))
    } else {
        Err(command_failed("tasklist /FI \"IMAGENAME eq chrome.exe\"", output))
    }
}

/// The first word of a list that stands for no process identifier.
pub open spec fn first_unreadable(list: Seq<Seq<char>>) -> Option<Seq<char>>
    decreases list.len(),
{
    if list.len() == 0 {
        None
    } else if parse_int(list[0]) is None {
        Some(list[0])
    } else {
        first_unreadable(list.drop_first())
    }
}

/// The process identifiers that the words of a list stand for.
pub open spec fn pids_in(list: Seq<Seq<char>>) -> Set<i32> {
    Set::new(
        |pid: i32|
            exists|i: int| 0 <= i < list.len() && parse_int(#[trigger] list[i]) == Some(pid as int),
    )
}

/// The set of identifiers after the lookup of `name` has been read: with
/// exit code 0 every word that the lookup printed joins the set, unless one
/// of them stands for no identifier, which is a failure; with exit code 1
/// the set stays as it is; anything else is a failure.
pub open spec fn gathered(name: Seq<char>, output: OutputView, pids: Set<i32>) -> Result<
    Set<i32>,
    ErrorView,
> {
    if output.code == Some(0i32) {
        match first_unreadable(words(output.stdout)) {
            Some(word) => Err(
                ErrorView::CommandFailed {
                    command: find_label(name),
                    details: "无法解析 pid: "@ + word,
                },
            ),
            None => Ok(pids.union(pids_in(words(output.stdout)))),
        }
    } else if output.code == Some(1i32) {
        Ok(pids)
    } else {
        Err(lookup_failure(name, output.code, "Terminated by signal"@))
    }
}

/// Reads the outcome of the lookup of `name` and adds the identifiers it
/// printed to `pids`.
pub fn pgrep_pids(name: &str, output: &CommandOutput, pids: PidSet) -> (r: AppResult<PidSet>)
    ensures
        match r {
            Ok(set) => gathered(name@, output@, pids@) == Ok::<Set<i32>, ErrorView>(set@),
            Err(e) => gathered(name@, output@, pids@) == Err::<Set<i32>, ErrorView>(e@),
        },
{
    if output.code == Some(0) {
        let list = split_words(output.stdout.as_str());
        let ghost all = words(output.stdout@);
        let ghost start = pids@;
        let mut set = pids;
        let mut i: usize = 0;
        assert(all.skip(0) =~= all);
        assert(start.union(pids_in(all.take(0))) =~= start);
        while i < list.len()
            invariant
                i <= list.len(),
                output.code == Some(0i32),
                all == words(output.stdout@),
                start == pids@,
                texts(list@) == all,
                first_unreadable(all) == first_unreadable(all.skip(i as int)),
                set@ == start.union(pids_in(all.take(i as int))),
            decreases list.len() - i,
        {
            let ghost rest = all.skip(i as int);
            assert(rest[0] == all[i as int]);
            assert(rest.drop_first() =~= all.skip(i + 1));
            assert(all[i as int] == list@[i as int]@);
            match parse_i32(list[i].as_str()) {
                Some(pid) => {
                    set = set.insert(pid);
                    assert(set@ =~= start.union(pids_in(all.take(i + 1)))) by {
                        let before = all.take(i as int);
                        let after = all.take(i + 1);
                        assert(after[i as int] == all[i as int]);
                        assert forall|p: i32| pids_in(after).contains(p) <==> (pids_in(
                            before,
                        ).contains(p) || p == pid) by {
                            if pids_in(before).contains(p) {
                                let k = choose|k: int|
                                    0 <= k < before.len() && parse_int(#[trigger] before[k])
                                        == Some(p as int);
                                assert(after[k] == before[k]);
                            }
                            if pids_in(after).contains(p) {
                                let k = choose|k: int|
                                    0 <= k < after.len() && parse_int(#[trigger] after[k]) == Some(
                                        p as int,
                                    );
                                if k < i {
                                    assert(before[k] == after[k]);
                                }
                            }
                        }
                    }
                },
                None => {
                    let mut command = followed_by("pgrep -x \"", name);
                    command.append("\"");
                    let details = followed_by("无法解析 pid: ", list[i].as_str());
                    return Err(AppError::CommandFailed { command, details });
                },
            }
            i += 1;
        }
        assert(all.take(i as int) =~= all);
        Ok(set)
    } else if output.code == Some(1) {
        Ok(pids)
    } else {
        Err(lookup_failed(name, output.code, "Terminated by signal"))
    }
}

/// What becomes of a batch of signals. For an empty set nothing is sent and
/// there is nothing that could fail; for any other set the batch went
/// through exactly when `kill` ended with exit code zero.
pub open spec fn signal_outcome(signal: Signal, pids: Set<i32>, output: OutputView) -> Result<
    (),
    ErrorView,
> {
    if pids == Set::<i32>::empty() || output.succeeded() {
        Ok(())
    } else {
        Err(failure_view(signal_command_view(signal, pids).label, output))
    }
}

/// Reads the outcome of the batch of signals sent to `pids`. For an empty
/// set no batch is sent, and whatever is handed in as its outcome is passed
/// over.
pub fn send_signal(pids: &PidSet, signal: Signal, output: &CommandOutput) -> (r: AppResult<()>)
    ensures
        match r {
            Ok(_) => signal_outcome(signal, pids@, output@) is Ok,
            Err(e) => signal_outcome(signal, pids@, output@) == Err::<(), ErrorView>(e@),
        },
{
    if pids.is_empty() || output.code == Some(0) {
        Ok(())
    } else {
        let command = signal_command(signal, pids);
        Err(command_failed(command.label.as_str(), output))
    }
}

} // verus!
