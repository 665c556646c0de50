//! Joining the device's wireless network through the host's own tooling.
//!
//! The host is asked by running its network set-up command; what it prints
//! is plain text. This module says which arguments to run the command with
//! and reads what came back. It keeps nothing between two queries.

use crate::http::{
    is_success, status_is_success, Header, HttpMethod, HttpOutcome, HttpRequest, OutcomeModel,
    RequestModel,
};
use crate::text::{
    concat2, concat3, contains_chars, first_index, has_prefix, has_substring, index_of, lines,
    lowercase, matches_at, push_text, split_lines, starts_with, subvec, texts,
    to_chars, to_lowercase, to_text, trim, trim_chars, trim_class, trimmed, CharClass,
};
use vstd::prelude::*;

verus! {

/// The command that configures the host's network.
pub const NETWORK_TOOL: &'static str = "networksetup";

/// Seconds that a probe of the device may take.
pub const PROBE_TIMEOUT_SECS: u64 = 2;

/// What a command printed, and whether it ended well.
#[derive(Clone, Debug, PartialEq)]
pub struct CommandOutput {
    pub stdout: String,
    pub stderr: String,
    pub success: bool,
}

/// What became of a command: it ran, or it could not be started.
#[derive(Clone, Debug, PartialEq)]
pub enum CommandOutcome {
    Ran(CommandOutput),
    NotRun(String),
}

/// What the network tool was asked to do.
#[derive(Clone, Copy, Debug, PartialEq, Eq, Structural)]
pub enum WifiOperation {
    ListPorts,
    CurrentNetwork,
    Connect,
    Reconnect,
}

/// Why an operation on the wireless interface failed.
#[derive(Clone, Debug, PartialEq)]
pub enum WifiError {
    /// The command could not be started.
    NotRun { operation: WifiOperation, detail: String },
    /// The listing of hardware ports names no wireless interface.
    InterfaceNotFound,
    /// The query for the current network failed; the report is its output.
    CurrentNetwork { report: String },
    /// The network was not joined; the reports are the output of the first
    /// attempt and of the one without password, where one was made.
    Connection { first: String, retry: Option<String> },
    /// The saved network was not joined again.
    Reconnect { ssid: String },
}

/// The output of a command, as contracts see it.
pub struct OutputModel {
    pub stdout: Seq<char>,
    pub stderr: Seq<char>,
    pub success: bool,
}

/// The outcome of a command, as contracts see it.
pub enum CommandOutcomeModel {
    Ran(OutputModel),
    NotRun(Seq<char>),
}

/// An error, as contracts see it.
pub enum WifiErrorModel {
    NotRun { operation: WifiOperation, detail: Seq<char> },
    InterfaceNotFound,
    CurrentNetwork { report: Seq<char> },
    Connection { first: Seq<char>, retry: Option<Seq<char>> },
    Reconnect { ssid: Seq<char> },
}

impl View for CommandOutput {
    type V = OutputModel;

    open spec fn view(&self) -> OutputModel {
        OutputModel { stdout: self.stdout@, stderr: self.stderr@, success: self.success }
    }
}

impl View for CommandOutcome {
    type V = CommandOutcomeModel;

    open spec fn view(&self) -> CommandOutcomeModel {
        match self {
            CommandOutcome::Ran(out) => CommandOutcomeModel::Ran(out@),
            CommandOutcome::NotRun(detail) => CommandOutcomeModel::NotRun(detail@),
        }
    }
}

impl View for WifiError {
    type V = WifiErrorModel;

    open spec fn view(&self) -> WifiErrorModel {
        match self {
            WifiError::NotRun { operation, detail } => WifiErrorModel::NotRun {
                operation: *operation,
                detail: detail@,
            },
            WifiError::InterfaceNotFound => WifiErrorModel::InterfaceNotFound,
            WifiError::CurrentNetwork { report } => WifiErrorModel::CurrentNetwork {
                report: report@,
            },
            WifiError::Connection { first, retry } => WifiErrorModel::Connection {
                first: first@,
                retry: match retry {
                    Some(r) => Some(r@),
                    None => None,
                },
            },
            WifiError::Reconnect { ssid } => WifiErrorModel::Reconnect { ssid: ssid@ },
        }
    }
}

/// A text result over the models.
pub open spec fn text_outcome(r: Result<String, WifiError>) -> Result<Seq<char>, WifiErrorModel> {
    match r {
        Ok(s) => Ok(s@),
        Err(e) => Err(e@),
    }
}

/// A result without a value over the models.
pub open spec fn unit_outcome(r: Result<(), WifiError>) -> Result<(), WifiErrorModel> {
    match r {
        Ok(_) => Ok(()),
        Err(e) => Err(e@),
    }
}

/// An optional text over the views.
pub open spec fn optional_text(r: Option<String>) -> Option<Seq<char>> {
    match r {
        Some(s) => Some(s@),
        None => None,
    }
}

impl WifiError {
    /// How the message begins when the command for `operation` did not run.
    pub open spec fn operation_text(operation: WifiOperation) -> Seq<char> {
        match operation {
            WifiOperation::ListPorts => "Failed to run networksetup: "@,
            WifiOperation::CurrentNetwork => "Failed to get current network: "@,
            WifiOperation::Connect => "Failed to connect to WiFi: "@,
            WifiOperation::Reconnect => "Failed to reconnect: "@,
        }
    }

    /// The words for an error.
    pub open spec fn message_text(e: WifiErrorModel) -> Seq<char> {
        match e {
            WifiErrorModel::NotRun { operation, detail } => Self::operation_text(operation)
                + detail,
            WifiErrorModel::InterfaceNotFound => "Could not find Wi-Fi interface"@,
            WifiErrorModel::CurrentNetwork { report } => "Failed to read current network: "@
                + report,
            WifiErrorModel::Connection { first, retry } => match retry {
                Some(second) => "Failed to connect: "@ + first + "; "@ + second,
                None => "Failed to connect: "@ + first,
            },
            WifiErrorModel::Reconnect { ssid } => "Failed to reconnect to "@ + ssid,
        }
    }

    /// The error in words.
    pub fn message(&self) -> (r: String)
        ensures
            r@ == Self::message_text(self@),
    {
        match self {
            WifiError::NotRun { operation, detail } => {
                let head = match operation {
                    WifiOperation::ListPorts => "Failed to run networksetup: ",
                    WifiOperation::CurrentNetwork => "Failed to get current network: ",
                    WifiOperation::Connect => "Failed to connect to WiFi: ",
                    WifiOperation::Reconnect => "Failed to reconnect: ",
                };
                concat2(head, detail.as_str())
            },
            WifiError::InterfaceNotFound => "Could not find Wi-Fi interface".to_string(),
            WifiError::CurrentNetwork { report } => concat2(
                "Failed to read current network: ",
                report.as_str(),
            ),
            WifiError::Connection { first, retry } => match retry {
                Some(second) => {
                    let head = concat3("Failed to connect: ", first.as_str(), "; ");
                    concat2(head.as_str(), second.as_str())
                },
                None => concat2("Failed to connect: ", first.as_str()),
            },
            WifiError::Reconnect { ssid } => concat2("Failed to reconnect to ", ssid.as_str()),
        }
    }
}

/// The two outputs of a command, each trimmed, with a space between.
pub open spec fn report_of(out: OutputModel) -> Seq<char> {
    trim(out.stdout) + " "@ + trim(out.stderr)
}

/// `s` without every copy of `p` that it begins with.
pub open spec fn skip_prefixes(s: Seq<char>, p: Seq<char>) -> Seq<char>
    decreases s.len(),
{
    if p.len() > 0 && has_prefix(s, p) {
        skip_prefixes(s.subrange(p.len() as int, s.len() as int), p)
    } else {
        s
    }
}

/// Whether a line of the listing opens the entry of a wireless port.
pub open spec fn is_wifi_marker(line: Seq<char>) -> bool {
    has_substring(line, "Wi-Fi"@) || has_substring(line, "AirPort"@)
}

/// The interface that a `Device:` line names.
pub open spec fn device_of(line: Seq<char>) -> Seq<char> {
    trim(skip_prefixes(line, "Device:"@))
}

/// The interface that the lines name. A line with a wireless marker arms
/// the scan. While it is armed, the first line that begins with `Device:`
/// names the interface, and a line that begins with `Hardware Port:`
/// disarms it.
pub open spec fn scan_interface(rows: Seq<Seq<char>>, armed: bool) -> Option<Seq<char>>
    decreases rows.len(),
{
    if rows.len() == 0 {
        None
    } else if is_wifi_marker(rows[0]) {
        scan_interface(rows.drop_first(), true)
    } else if armed && has_prefix(rows[0], "Device:"@) {
        Some(device_of(rows[0]))
    } else if armed && has_prefix(rows[0], "Hardware Port:"@) {
        scan_interface(rows.drop_first(), false)
    } else {
        scan_interface(rows.drop_first(), armed)
    }
}

/// The wireless interface that a listing of hardware ports names.
pub open spec fn interface_in(listing: Seq<char>) -> Option<Seq<char>> {
    scan_interface(lines(listing), false)
}

/// What a query for the hardware ports gives.
pub open spec fn discovered(o: CommandOutcomeModel) -> Result<Seq<char>, WifiErrorModel> {
    match o {
        CommandOutcomeModel::Ran(out) => match interface_in(out.stdout) {
            Some(id) => Ok(id),
            None => Err(WifiErrorModel::InterfaceNotFound),
        },
        CommandOutcomeModel::NotRun(detail) => Err(
            WifiErrorModel::NotRun { operation: WifiOperation::ListPorts, detail },
        ),
    }
}

/// Whether a lower-case answer says that no network is joined.
pub open spec fn says_not_connected(lower: Seq<char>) -> bool {
    ||| has_substring(lower, "not associated"@)
    ||| has_substring(lower, "not a wi-fi interface"@)
    ||| has_substring(lower, "error obtaining wireless information"@)
}

/// The network that an answer names. `line` is the trimmed output and
/// `lower` its lower-case form. An answer that says that no network is
/// joined gives the empty name; else the name is what follows the first
/// colon, without blanks and quotes around it; an answer without colon gives
/// the empty name where the command ended well, and an error where not.
pub open spec fn network_named(
    line: Seq<char>,
    lower: Seq<char>,
    stderr: Seq<char>,
    success: bool,
) -> Result<Seq<char>, WifiErrorModel> {
    if says_not_connected(lower) {
        Ok(Seq::empty())
    } else if first_index(line, ':') < line.len() {
        Ok(
            trim_class(
                trim(line.subrange(first_index(line, ':') + 1, line.len() as int)),
                CharClass::Exactly('"'),
            ),
        )
    } else if success {
        Ok(Seq::empty())
    } else {
        Err(WifiErrorModel::CurrentNetwork { report: line + " "@ + trim(stderr) })
    }
}

/// What a query for the current network gives.
pub open spec fn network_of(o: CommandOutcomeModel) -> Result<Seq<char>, WifiErrorModel> {
    match o {
        CommandOutcomeModel::Ran(out) => network_named(
            trim(out.stdout),
            lowercase(trim(out.stdout)),
            out.stderr,
            out.success,
        ),
        CommandOutcomeModel::NotRun(detail) => Err(
            WifiErrorModel::NotRun { operation: WifiOperation::CurrentNetwork, detail },
        ),
    }
}

/// Whether a lower-case output says that the network is joined already.
pub open spec fn says_associated(lower: Seq<char>) -> bool {
    has_substring(lower, "already associated"@) || has_substring(lower, "already connected"@)
}

/// Whether an attempt to join counts as a success: the command ended well,
/// or its output says that the network is joined already.
pub open spec fn associated(out: OutputModel) -> bool {
    out.success || says_associated(lowercase(out.stdout + " "@ + out.stderr))
}

/// The arguments that list the hardware ports.
pub fn list_ports_command() -> (r: Vec<String>)
    ensures
        texts(r@) == seq!["-listallhardwareports"@],
{
    let mut args: Vec<String> = Vec::new();
    assert(texts(args@) =~= Seq::<Seq<char>>::empty());
    push_text(&mut args, "-listallhardwareports".to_string());
    assert(texts(args@) =~= seq!["-listallhardwareports"@]);
    args
}

/// The arguments that ask for the network that `interface` has joined.
pub fn current_network_command(interface: &str) -> (r: Vec<String>)
    ensures
        texts(r@) == seq!["-getairportnetwork"@, interface@],
{
    let mut args: Vec<String> = Vec::new();
    assert(texts(args@) =~= Seq::<Seq<char>>::empty());
    push_text(&mut args, "-getairportnetwork".to_string());
    push_text(&mut args, interface.to_string());
    assert(texts(args@) =~= seq!["-getairportnetwork"@, interface@]);
    args
}

fn skip_prefixes_chars(v: &Vec<char>, p: &Vec<char>) -> (r: Vec<char>)
    ensures
        r@ == skip_prefixes(v@, p@),
{
    let n = v.len();
    let mut start: usize = 0;
    assert(v@.subrange(0, n as int) == v@);
    while p.len() > 0 && matches_at(v, p, start)
        invariant
            n == v.len(),
            start <= n,
            skip_prefixes(v@, p@) == skip_prefixes(v@.subrange(start as int, n as int), p@),
        decreases n - start,
    {
        let ghost rest = v@.subrange(start as int, n as int);
        assert(rest.subrange(0, p.len() as int) == v@.subrange(start as int, start + p.len()));
        assert(rest.subrange(p.len() as int, rest.len() as int) == v@.subrange(
            start + p.len(),
            n as int,
        ));
        start += p.len();
    }
    proof {
        let rest = v@.subrange(start as int, n as int);
        if p.len() > 0 && p.len() <= rest.len() {
            assert(rest.subrange(0, p.len() as int) == v@.subrange(
                start as int,
                start + p.len(),
            ));
        }
    }
    subvec(v, start, n)
}

fn line_is_marker(line: &Vec<char>) -> (r: bool)
    ensures
        r == is_wifi_marker(line@),
{
    contains_chars(line, &to_chars("Wi-Fi")) || contains_chars(line, &to_chars("AirPort"))
}

/// The wireless interface that a listing of hardware ports names.
pub fn find_interface(listing: &str) -> (r: Option<String>)
    ensures
        optional_text(r) == interface_in(listing@),
{
    let chars = to_chars(listing);
    let rows = split_lines(&chars);
    let ghost all = lines(listing@);
    let device = to_chars("Device:");
    let port = to_chars("Hardware Port:");
    let mut armed = false;
    let mut i: usize = 0;
    assert(all.subrange(0, all.len() as int) == all);
    while i < rows.len()
        invariant
            i <= rows.len(),
            rows@.len() == all.len(),
            forall|k: int| 0 <= k < rows@.len() ==> (#[trigger] rows@[k])@ == all[k],
            device@ == "Device:"@,
            port@ == "Hardware Port:"@,
            interface_in(listing@) == scan_interface(
                all.subrange(i as int, all.len() as int),
                armed,
            ),
        decreases rows.len() - i,
    {
        let ghost rest = all.subrange(i as int, all.len() as int);
        assert(rest[0] == rows@[i as int]@);
        assert(rest.drop_first() == all.subrange(i + 1, all.len() as int));
        let row = &rows[i];
        if line_is_marker(row) {
            armed = true;
        } else if armed && starts_with(row, &device) {
            let name = skip_prefixes_chars(row, &device);
            let kept = trim_chars(&name, CharClass::Whitespace);
            return Some(to_text(&kept));
        } else if armed && starts_with(row, &port) {
            armed = false;
        }
        i += 1;
    }
    None
}

/// Reads the answer to a query for the hardware ports.
pub fn discover_interface(outcome: &CommandOutcome) -> (r: Result<String, WifiError>)
    ensures
        text_outcome(r) == discovered(outcome@),
{
    match outcome {
        CommandOutcome::Ran(out) => match find_interface(out.stdout.as_str()) {
            Some(id) => Ok(id),
            None => Err(WifiError::InterfaceNotFound),
        },
        CommandOutcome::NotRun(detail) => Err(
            WifiError::NotRun { operation: WifiOperation::ListPorts, detail: detail.clone() },
        ),
    }
}

/// Whether a lower-case answer says that no network is joined.
pub fn reports_no_network(lower: &str) -> (r: bool)
    ensures
        r == says_not_connected(lower@),
{
    let chars = to_chars(lower);
    contains_chars(&chars, &to_chars("not associated")) || contains_chars(
        &chars,
        &to_chars("not a wi-fi interface"),
    ) || contains_chars(&chars, &to_chars("error obtaining wireless information"))
}

/// The network that an answer names, given the trimmed output and its
/// lower-case form.
pub fn read_network(line: &str, lower: &str, stderr: &str, success: bool) -> (r: Result<
    String,
    WifiError,
>)
    ensures
        text_outcome(r) == network_named(line@, lower@, stderr@, success),
{
    if reports_no_network(lower) {
        return Ok(String::new());
    }
    let chars = to_chars(line);
    match index_of(&chars, ':') {
        Some(at) => {
            let tail = subvec(&chars, at + 1, chars.len());
            let name = trim_chars(&tail, CharClass::Whitespace);
            let bare = trim_chars(&name, CharClass::Exactly('"'));
            Ok(to_text(&bare))
        },
        None => {
            if success {
                Ok(String::new())
            } else {
                let kept = trimmed(stderr);
                Err(WifiError::CurrentNetwork { report: concat3(line, " ", kept.as_str()) })
            }
        },
    }
}

/// Reads the answer to a query for the current network. The empty name
/// stands for "no network joined", which is no error.
pub fn current_network(outcome: &CommandOutcome) -> (r: Result<String, WifiError>)
    ensures
        text_outcome(r) == network_of(outcome@),
{
    match outcome {
        CommandOutcome::Ran(out) => {
            let line = trimmed(out.stdout.as_str());
            let lower = to_lowercase(line.as_str());
            read_network(line.as_str(), lower.as_str(), out.stderr.as_str(), out.success)
        },
        CommandOutcome::NotRun(detail) => Err(
            WifiError::NotRun { operation: WifiOperation::CurrentNetwork, detail: detail.clone() },
        ),
    }
}

/// Whether a lower-case output says that the network is joined already.
pub fn reports_association(lower: &str) -> (r: bool)
    ensures
        r == says_associated(lower@),
{
    let chars = to_chars(lower);
    contains_chars(&chars, &to_chars("already associated")) || contains_chars(
        &chars,
        &to_chars("already connected"),
    )
}

/// Whether an attempt to join counts as a success.
pub fn is_associated(out: &CommandOutput) -> (r: bool)
    ensures
        r == associated(out@),
{
    if out.success {
        return true;
    }
    let combined = concat3(out.stdout.as_str(), " ", out.stderr.as_str());
    let lower = to_lowercase(combined.as_str());
    reports_association(lower.as_str())
}

/// The two outputs of a command, each trimmed, with a space between.
pub fn report(out: &CommandOutput) -> (r: String)
    ensures
        r@ == report_of(out@),
{
    let a = trimmed(out.stdout.as_str());
    let b = trimmed(out.stderr.as_str());
    concat3(a.as_str(), " ", b.as_str())
}

/// Which run of the command is at hand.
#[derive(Clone, Copy, Debug, PartialEq, Eq, Structural)]
pub enum ConnectStage {
    /// The first attempt, with the password where there is one.
    First,
    /// The attempt without password, after the first one failed.
    Retry,
    /// The one attempt to join a saved network again.
    Saved,
}

/// An attempt to join a network, between two runs of the command.
#[derive(Clone, Debug, PartialEq)]
pub struct ConnectSession {
    pub interface: String,
    pub ssid: String,
    pub password: String,
    pub stage: ConnectStage,
    pub first_report: String,
}

/// What follows a run of the command: another run, or the end.
#[derive(Debug, PartialEq)]
pub enum ConnectProgress {
    Continue(ConnectSession),
    Finished(Result<(), WifiError>),
}

/// A session, as contracts see it.
pub struct ConnectModel {
    pub interface: Seq<char>,
    pub ssid: Seq<char>,
    pub password: Seq<char>,
    pub stage: ConnectStage,
    pub first_report: Seq<char>,
}

/// What follows a run, as contracts see it.
pub enum ConnectProgressModel {
    Continue(ConnectModel),
    Finished(Result<(), WifiErrorModel>),
}

impl View for ConnectSession {
    type V = ConnectModel;

    open spec fn view(&self) -> ConnectModel {
        ConnectModel {
            interface: self.interface@,
            ssid: self.ssid@,
            password: self.password@,
            stage: self.stage,
            first_report: self.first_report@,
        }
    }
}

impl View for ConnectProgress {
    type V = ConnectProgressModel;

    open spec fn view(&self) -> ConnectProgressModel {
        match self {
            ConnectProgress::Continue(s) => ConnectProgressModel::Continue(s@),
            ConnectProgress::Finished(r) => ConnectProgressModel::Finished(unit_outcome(*r)),
        }
    }
}

/// The session that joins `ssid` on `interface`.
pub open spec fn connect_start(
    interface: Seq<char>,
    ssid: Seq<char>,
    password: Seq<char>,
) -> ConnectModel {
    ConnectModel {
        interface,
        ssid,
        password,
        stage: ConnectStage::First,
        first_report: Seq::empty(),
    }
}

/// The session that joins `ssid` again: as a saved network where no
/// password is given, as any network where one is.
pub open spec fn reconnect_start(
    interface: Seq<char>,
    ssid: Seq<char>,
    password: Seq<char>,
) -> ConnectModel {
    ConnectModel {
        interface,
        ssid,
        password,
        stage: if password.len() == 0 {
            ConnectStage::Saved
        } else {
            ConnectStage::First
        },
        first_report: Seq::empty(),
    }
}

/// The arguments of the run at hand: the password goes with the first
/// attempt only, and only where there is one.
pub open spec fn command_of(s: ConnectModel) -> Seq<Seq<char>> {
    if s.stage == ConnectStage::First && s.password.len() > 0 {
        seq!["-setairportnetwork"@, s.interface, s.ssid, s.password]
    } else {
        seq!["-setairportnetwork"@, s.interface, s.ssid]
    }
}

/// What follows the run at hand, given its outcome.
pub open spec fn connect_step(s: ConnectModel, o: CommandOutcomeModel) -> ConnectProgressModel {
    match o {
        CommandOutcomeModel::NotRun(detail) => ConnectProgressModel::Finished(
            Err(
                WifiErrorModel::NotRun {
                    operation: if s.stage == ConnectStage::Saved {
                        WifiOperation::Reconnect
                    } else {
                        WifiOperation::Connect
                    },
                    detail,
                },
            ),
        ),
        CommandOutcomeModel::Ran(out) => match s.stage {
            ConnectStage::Saved => ConnectProgressModel::Finished(
                if out.success {
                    Ok(())
                } else {
                    Err(WifiErrorModel::Reconnect { ssid: s.ssid })
                },
            ),
            ConnectStage::First => if associated(out) {
                ConnectProgressModel::Finished(Ok(()))
            } else if s.password.len() > 0 {
                ConnectProgressModel::Continue(
                    ConnectModel {
                        interface: s.interface,
                        ssid: s.ssid,
                        password: s.password,
                        stage: ConnectStage::Retry,
                        first_report: report_of(out),
                    },
                )
            } else {
                ConnectProgressModel::Finished(
                    Err(WifiErrorModel::Connection { first: report_of(out), retry: None }),
                )
            },
            ConnectStage::Retry => if associated(out) {
                ConnectProgressModel::Finished(Ok(()))
            } else {
                ConnectProgressModel::Finished(
                    Err(
                        WifiErrorModel::Connection {
                            first: s.first_report,
                            retry: Some(report_of(out)),
                        },
                    ),
                )
            },
        },
    }
}

impl ConnectSession {
    /// Begins to join the network `ssid` on `interface`.
    pub fn connect(interface: &str, ssid: &str, password: &str) -> (r: ConnectSession)
        ensures
            r@ == connect_start(interface@, ssid@, password@),
    {
        ConnectSession {
            interface: interface.to_string(),
            ssid: ssid.to_string(),
            password: password.to_string(),
            stage: ConnectStage::First,
            first_report: String::new(),
        }
    }

    /// Begins to join the network `ssid` again.
    pub fn reconnect(interface: &str, ssid: &str, password: &str) -> (r: ConnectSession)
        ensures
            r@ == reconnect_start(interface@, ssid@, password@),
    {
        ConnectSession {
            interface: interface.to_string(),
            ssid: ssid.to_string(),
            password: password.to_string(),
            stage: if password.is_empty() {
                ConnectStage::Saved
            } else {
                ConnectStage::First
            },
            first_report: String::new(),
        }
    }

    /// The arguments to run the command with.
    pub fn command(&self) -> (r: Vec<String>)
        ensures
            texts(r@) == command_of(self@),
    {
        let mut args: Vec<String> = Vec::new();
        assert(texts(args@) =~= Seq::<Seq<char>>::empty());
        push_text(&mut args, "-setairportnetwork".to_string());
        push_text(&mut args, self.interface.clone());
        push_text(&mut args, self.ssid.clone());
        let with_password = match self.stage {
            ConnectStage::First => !self.password.as_str().is_empty(),
            _ => false,
        };
        if with_password {
            push_text(&mut args, self.password.clone());
        }
        assert(texts(args@) =~= command_of(self@));
        args
    }

    /// Takes the outcome of the run at hand and says what follows.
    pub fn advance(self, outcome: &CommandOutcome) -> (r: ConnectProgress)
        ensures
            r@ == connect_step(self@, outcome@),
    {
        let out = match outcome {
            CommandOutcome::NotRun(detail) => {
                let operation = match self.stage {
                    ConnectStage::Saved => WifiOperation::Reconnect,
                    _ => WifiOperation::Connect,
                };
                return ConnectProgress::Finished(
                    Err(WifiError::NotRun { operation, detail: detail.clone() }),
                );
            },
            CommandOutcome::Ran(out) => out,
        };
        let ConnectSession { interface, ssid, password, stage, first_report } = self;
        match stage {
            ConnectStage::Saved => ConnectProgress::Finished(
                if out.success {
                    Ok(())
                } else {
                    Err(WifiError::Reconnect { ssid })
                },
            ),
            ConnectStage::First => {
                if is_associated(out) {
                    ConnectProgress::Finished(Ok(()))
                } else if !password.as_str().is_empty() {
                    ConnectProgress::Continue(
                        ConnectSession {
                            interface,
                            ssid,
                            password,
                            stage: ConnectStage::Retry,
                            first_report: report(out),
                        },
                    )
                } else {
                    ConnectProgress::Finished(
                        Err(WifiError::Connection { first: report(out), retry: None }),
                    )
                }
            },
            ConnectStage::Retry => {
                if is_associated(out) {
                    ConnectProgress::Finished(Ok(()))
                } else {
                    ConnectProgress::Finished(
                        Err(
                            WifiError::Connection {
                                first: first_report,
                                retry: Some(report(out)),
                            },
                        ),
                    )
                }
            },
        }
    }
}

/// Where the host stands with a network, as far as one query or one run of
/// the command tells. Nothing is kept: each answer is read afresh.
#[derive(Clone, Copy, Debug, PartialEq, Eq, Structural)]
pub enum WifiAssociationState {
    Unknown,
    Disconnected,
    Associating,
    Connected,
    AssociationFailed,
}

/// The state that the answer to a query for the current network shows: a
/// name means connected, the empty name disconnected, an error leaves it
/// unknown.
pub open spec fn state_after_query(r: Result<Seq<char>, WifiErrorModel>) -> WifiAssociationState {
    match r {
        Ok(name) => if name.len() == 0 {
            WifiAssociationState::Disconnected
        } else {
            WifiAssociationState::Connected
        },
        Err(_) => WifiAssociationState::Unknown,
    }
}

/// The state after a run of the command to join: associating while another
/// run follows, connected or failed where it ended.
pub open spec fn state_after_step(p: ConnectProgressModel) -> WifiAssociationState {
    match p {
        ConnectProgressModel::Continue(_) => WifiAssociationState::Associating,
        ConnectProgressModel::Finished(Ok(_)) => WifiAssociationState::Connected,
        ConnectProgressModel::Finished(Err(_)) => WifiAssociationState::AssociationFailed,
    }
}

/// The state that the answer to a query for the current network shows.
pub fn association_after_query(answer: &Result<String, WifiError>) -> (r: WifiAssociationState)
    ensures
        r == state_after_query(text_outcome(*answer)),
{
    match answer {
        Ok(name) => if name.as_str().is_empty() {
            WifiAssociationState::Disconnected
        } else {
            WifiAssociationState::Connected
        },
        Err(_) => WifiAssociationState::Unknown,
    }
}

/// The state after a run of the command to join.
pub fn association_after_step(progress: &ConnectProgress) -> (r: WifiAssociationState)
    ensures
        r == state_after_step(progress@),
{
    match progress {
        ConnectProgress::Continue(_) => WifiAssociationState::Associating,
        ConnectProgress::Finished(Ok(_)) => WifiAssociationState::Connected,
        ConnectProgress::Finished(Err(_)) => WifiAssociationState::AssociationFailed,
    }
}

/// The request that probes the device at `ip`.
pub open spec fn probe_request_of(ip: Seq<char>) -> RequestModel {
    RequestModel {
        method: HttpMethod::Get,
        url: "http://"@ + ip,
        headers: Seq::empty(),
        body: None,
        timeout_secs: PROBE_TIMEOUT_SECS,
    }
}

/// Whether a probe found the device: only a response of the success class
/// says so.
pub open spec fn reachable(o: OutcomeModel) -> bool {
    o matches OutcomeModel::Response { status, .. } && is_success(status)
}

/// The request that probes the device at `ip`.
pub fn probe_request(ip: &str) -> (r: HttpRequest)
    ensures
        r@ == probe_request_of(ip@),
{
    let headers: Vec<Header> = Vec::new();
    let r = HttpRequest {
        method: HttpMethod::Get,
        url: concat2("http://", ip),
        headers,
        body: None,
        timeout_secs: PROBE_TIMEOUT_SECS,
    };
    assert(r@.headers =~= Seq::<crate::http::HeaderModel>::empty());
    r
}

/// Judges a probe. It never fails: whatever went wrong, the device counts
/// as out of reach.
pub fn probe_result(outcome: &HttpOutcome) -> (r: bool)
    ensures
        r == reachable(outcome@),
{
    match outcome {
        HttpOutcome::Response { status, body } => status_is_success(*status),
        HttpOutcome::TransportError { .. } => false,
    }
}

/// A listing without any wireless marker names no interface.
pub proof fn lemma_no_marker_no_interface(rows: Seq<Seq<char>>)
    requires
        forall|i: int| 0 <= i < rows.len() ==> !is_wifi_marker(#[trigger] rows[i]),
    ensures
        scan_interface(rows, false) is None,
    decreases rows.len(),
{
    if rows.len() > 0 {
        let rest = rows.drop_first();
        assert forall|i: int| 0 <= i < rest.len() implies !is_wifi_marker(#[trigger] rest[i]) by {
            assert(rest[i] == rows[i + 1]);
        }
        lemma_no_marker_no_interface(rest);
    }
}

/// Where a line with a wireless marker comes first and a `Device:` line two
/// lines later, with a line between them that neither opens another port
/// nor names a device, the listing names the interface of that `Device:`
/// line.
pub proof fn lemma_device_after_marker(rows: Seq<Seq<char>>)
    requires
        rows.len() >= 3,
        is_wifi_marker(rows[0]),
        !is_wifi_marker(rows[1]),
        !has_prefix(rows[1], "Device:"@),
        !has_prefix(rows[1], "Hardware Port:"@),
        !is_wifi_marker(rows[2]),
        has_prefix(rows[2], "Device:"@),
    ensures
        scan_interface(rows, false) == Some(device_of(rows[2])),
{
    let a = rows.drop_first();
    let b = a.drop_first();
    assert(a[0] == rows[1]);
    assert(b[0] == rows[2]);
    assert(scan_interface(rows, false) == scan_interface(a, true));
    assert(scan_interface(a, true) == scan_interface(b, true));
}

/// An answer that says that no network is joined gives the empty name and
/// never an error, whatever else it holds and however the command ended.
pub proof fn lemma_not_connected_is_no_error(
    line: Seq<char>,
    lower: Seq<char>,
    stderr: Seq<char>,
    success: bool,
)
    requires
        says_not_connected(lower),
    ensures
        network_named(line, lower, stderr, success) == Ok::<Seq<char>, WifiErrorModel>(
            Seq::empty(),
        ),
{
}

/// Joining takes two runs at most, and the second one only where the first
/// failed and a password was given; it goes without the password.
pub proof fn lemma_connect_runs(s: ConnectModel, o: CommandOutcomeModel)
    ensures
        s.stage != ConnectStage::First ==> connect_step(s, o) is Finished,
        s.password.len() == 0 ==> connect_step(s, o) is Finished,
        connect_step(s, o) matches ConnectProgressModel::Continue(next) ==> {
            &&& next.stage == ConnectStage::Retry
            &&& command_of(next) == seq!["-setairportnetwork"@, s.interface, s.ssid]
            &&& o matches CommandOutcomeModel::Ran(out) && !associated(out)
        },
        (o matches CommandOutcomeModel::Ran(out) && associated(out) && s.stage
            != ConnectStage::Saved) ==> connect_step(s, o) == ConnectProgressModel::Finished(
            Ok(()),
        ),
{
}

} // verus!
