//! What the supervisor hands to the backend server process: its bearer token
//! and its command line.

use vstd::prelude::*;
use crate::text::{
    decimal, join, outcome_view, push_decimal, push_signed_decimal, result_view, signed_decimal,
};

verus! {

/// Interface on which the backend server listens.
pub const SIDECAR_HOST: &'static str = "127.0.0.1";

/// Number of random bytes behind a token.
pub const TOKEN_BYTES: usize = 32;

/// The lower-case hexadecimal digit of `v`.
pub open spec fn hex_digit(v: nat) -> char
    recommends
        v < 16,
{
    if v < 10 {
        (48 + v) as u8 as char
    } else {
        (87 + v) as u8 as char
    }
}

/// The lower-case hexadecimal rendering of `bytes`: two digits for each
/// byte, the high half first.
pub open spec fn hex(bytes: Seq<u8>) -> Seq<char> {
    Seq::new(
        2 * bytes.len(),
        |i: int|
            if i % 2 == 0 {
                hex_digit((bytes[i / 2] / 16) as nat)
            } else {
                hex_digit((bytes[i / 2] % 16) as nat)
            },
    )
}

/// Whether `c` is one of `0`..`9`, `a`..`f`.
pub open spec fn is_lower_hex(c: char) -> bool {
    ('0' <= c && c <= '9') || ('a' <= c && c <= 'f')
}

/// Whether `s` has the shape of a token: 64 lower-case hexadecimal digits.
pub open spec fn is_token(s: Seq<char>) -> bool {
    &&& s.len() == 2 * TOKEN_BYTES
    &&& forall|i: int| 0 <= i < s.len() ==> is_lower_hex(#[trigger] s[i])
}

/// Every rendering of 32 bytes has the shape of a token.
pub proof fn lemma_hex_is_token(bytes: Seq<u8>)
    requires
        bytes.len() == TOKEN_BYTES,
    ensures
        is_token(hex(bytes)),
{
    assert forall|i: int| 0 <= i < hex(bytes).len() implies is_lower_hex(
        #[trigger] hex(bytes)[i],
    ) by {
        let b = bytes[i / 2];
        assert(0 <= b / 16 < 16 && 0 <= b % 16 < 16);
    }
}

/// Different byte strings have different renderings.
pub proof fn lemma_hex_injective(a: Seq<u8>, b: Seq<u8>)
    requires
        hex(a) == hex(b),
    ensures
        a == b,
{
    assert(a.len() == b.len()) by {
        assert(hex(a).len() == 2 * a.len());
        assert(hex(b).len() == 2 * b.len());
    }
    assert forall|k: int| 0 <= k < a.len() implies a[k] == b[k] by {
        let hi_a = (a[k] / 16) as nat;
        let lo_a = (a[k] % 16) as nat;
        let hi_b = (b[k] / 16) as nat;
        let lo_b = (b[k] % 16) as nat;
        assert(hex(a)[2 * k] == hex_digit(hi_a));
        assert(hex(b)[2 * k] == hex_digit(hi_b));
        assert(hex(a)[2 * k + 1] == hex_digit(lo_a));
        assert(hex(b)[2 * k + 1] == hex_digit(lo_b));
        assert(hi_a == hi_b);
        assert(lo_a == lo_b);
    }
    assert(a =~= b);
}

fn hex_char(v: u8) -> (c: char)
    requires
        v < 16,
    ensures
        c == hex_digit(v as nat),
{
    if v < 10 {
        (48u8 + v) as char
    } else {
        (87u8 + v) as char
    }
}

/// Renders `bytes` in lower-case hexadecimal.
pub fn hex_encode(bytes: &[u8]) -> (text: String)
    ensures
        text@ == hex(bytes@),
{
    let mut text = String::new();
    let mut i: usize = 0;
    while i < bytes.len()
        invariant
            i <= bytes.len(),
            text@.len() == 2 * i,
            forall|j: int| 0 <= j < 2 * i ==> text@[j] == hex(bytes@)[j],
        decreases bytes.len() - i,
    {
        let b = bytes[i];
        text.push(hex_char(b / 16));
        text.push(hex_char(b % 16));
        i += 1;
    }
    assert(text@ =~= hex(bytes@));
    text
}

/// `OsRng::try_fill_bytes` of rand overwrites `dest` with bytes from the
/// operating system's random source, or reports why it could not. Nothing is
/// claimed of the bytes or of the outcome.
#[verifier::external_body]
fn fill_from_os(dest: &mut [u8; TOKEN_BYTES]) -> (outcome: Result<(), String>) {
    match rand::RngCore::try_fill_bytes(&mut rand::rngs::OsRng, dest) {
        Ok(()) => Ok(()),
        Err(e) => Err(e.to_string()),
    }
}

/// What `generate_token` returns once the random source has answered.
pub open spec fn token_outcome(outcome: Result<(), Seq<char>>, bytes: Seq<u8>) -> Result<
    Seq<char>,
    Seq<char>,
> {
    match outcome {
        Ok(()) => Ok(hex(bytes)),
        Err(e) => Err("failed to read the random source: "@ + e),
    }
}

/// The token for `bytes` when the random source filled them, its failure
/// otherwise.
pub fn token_from(outcome: Result<(), String>, bytes: &[u8; TOKEN_BYTES]) -> (r: Result<
    String,
    String,
>)
    ensures
        result_view(r) == token_outcome(outcome_view(outcome), bytes@),
{
    match outcome {
        Ok(()) => Ok(hex_encode(bytes.as_slice())),
        Err(e) => Err(join("failed to read the random source: ", e.as_str())),
    }
}

/// Mints a fresh bearer token: 32 bytes from the operating system's random
/// source in lower-case hexadecimal. Fails only when that source does.
pub fn generate_token() -> (r: Result<String, String>)
    ensures
        r matches Ok(token) ==> is_token(token@),
        r matches Ok(token) ==> exists|bytes: Seq<u8>|
            bytes.len() == TOKEN_BYTES && token@ == hex(bytes),
        r matches Err(e) ==> exists|detail: Seq<char>|
            e@ == "failed to read the random source: "@ + detail,
{
    let mut bytes: [u8; TOKEN_BYTES] = [0u8; TOKEN_BYTES];
    let outcome = fill_from_os(&mut bytes);
    proof {
        lemma_hex_is_token(bytes@);
    }
    token_from(outcome, &bytes)
}

/// The command line of the backend server for a port, a token and a
/// workspace directory.
pub open spec fn command_line(port: u16, token: Seq<char>, workspace: Seq<char>) -> Seq<Seq<char>> {
    seq![
        "serve"@,
        "--host"@,
        SIDECAR_HOST@,
        "--port"@,
        decimal(port as nat),
        "--token"@,
        token,
        "--workspace"@,
        workspace,
    ]
}

/// Builds the arguments with which the backend server is started.
pub fn sidecar_args(port: u16, token: &str, workspace: &str) -> (args: Vec<String>)
    ensures
        args.deep_view() == command_line(port, token@, workspace@),
{
    let mut port_text = String::new();
    push_decimal(&mut port_text, port as u64);
    let mut args: Vec<String> = Vec::new();
    args.push(String::from_str("serve"));
    args.push(String::from_str("--host"));
    args.push(String::from_str(SIDECAR_HOST));
    args.push(String::from_str("--port"));
    args.push(port_text);
    args.push(String::from_str("--token"));
    args.push(String::from_str(token));
    args.push(String::from_str("--workspace"));
    args.push(String::from_str(workspace));
    assert(args.deep_view() =~= command_line(port, token@, workspace@));
    args
}

/// The address under which the backend server is reached on `port`.
pub open spec fn base_url_of(port: u16) -> Seq<char> {
    "http://"@ + SIDECAR_HOST@ + ":"@ + decimal(port as nat)
}

/// Computes the address under which the backend server is reached on `port`.
pub fn base_url(port: u16) -> (url: String)
    ensures
        url@ == base_url_of(port),
{
    let mut url = String::from_str("http://");
    url.append(SIDECAR_HOST);
    url.append(":");
    push_decimal(&mut url, port as u64);
    url
}

/// How an attempt to find a free port ended.
#[derive(Clone, Debug, PartialEq, Eq)]
pub enum PortProbe {
    /// A listener was bound to port 0 of the loopback interface and the
    /// system assigned this port.
    Bound(u16),
    /// No listener could be bound.
    BindFailed(String),
    /// The listener was bound but its address could not be read.
    AddressUnknown(String),
}

/// The port that a probe found, or the failure that it reports.
pub open spec fn port_of(probe: PortProbe) -> Result<u16, Seq<char>> {
    match probe {
        PortProbe::Bound(port) => Ok(port),
        PortProbe::BindFailed(e) => Err("failed to bind ephemeral port: "@ + e@),
        PortProbe::AddressUnknown(e) => Err("failed to read local address: "@ + e@),
    }
}

/// Turns the outcome of a port probe into the port or a descriptive error.
pub fn available_port(probe: &PortProbe) -> (r: Result<u16, String>)
    ensures
        r matches Ok(port) ==> port_of(*probe) == Ok::<u16, Seq<char>>(port),
        r matches Err(e) ==> port_of(*probe) == Err::<u16, Seq<char>>(e@),
{
    match probe {
        PortProbe::Bound(port) => Ok(*port),
        PortProbe::BindFailed(e) => Err(join("failed to bind ephemeral port: ", e.as_str())),
        PortProbe::AddressUnknown(e) => Err(join("failed to read local address: ", e.as_str())),
    }
}

/// Why the backend server process could not be started.
#[derive(Clone, Debug, PartialEq, Eq)]
pub enum SpawnFailure {
    /// The executable could not be located or its command not be set up.
    Configure(String),
    /// The executable was found but could not be launched.
    Launch(String),
}

impl SpawnFailure {
    /// The error text of this failure.
    pub open spec fn describe(self) -> Seq<char> {
        match self {
            SpawnFailure::Configure(e) => "failed to configure sidecar command: "@ + e@,
            SpawnFailure::Launch(e) => "failed to spawn treq sidecar: "@ + e@,
        }
    }

    /// Renders the error text of this failure.
    pub fn message(&self) -> (text: String)
        ensures
            text@ == self.describe(),
    {
        match self {
            SpawnFailure::Configure(e) => join("failed to configure sidecar command: ", e.as_str()),
            SpawnFailure::Launch(e) => join("failed to spawn treq sidecar: ", e.as_str()),
        }
    }
}

/// What a running backend server process reports to its supervisor.
#[derive(Clone, Debug, PartialEq, Eq)]
pub enum SidecarEvent {
    /// A chunk of the standard output.
    Stdout(Vec<u8>),
    /// A chunk of the standard error.
    Stderr(Vec<u8>),
    /// The process could not be read from or waited for.
    Error(String),
    /// The process ended, with its exit code where it has one.
    Terminated { code: Option<i32> },
    /// Any other report.
    Other,
}

/// The stream of the host's log that a record goes to.
#[derive(Clone, Copy, Debug, PartialEq, Eq, Structural)]
pub enum LogStream {
    /// The host's standard output.
    Output,
    /// The host's standard error.
    Diagnostics,
}

/// One piece of text for the host's log.
#[derive(Clone, Debug, PartialEq, Eq)]
pub struct LogRecord {
    pub stream: LogStream,
    pub text: String,
}

/// The text that `String::from_utf8_lossy` of std makes of `bytes`.
pub uninterp spec fn utf8_lossy(bytes: Seq<u8>) -> Seq<char>;

/// `String::from_utf8_lossy` of std decodes `bytes` as UTF-8 and puts the
/// replacement character in place of what is not valid.
#[verifier::external_body]
fn lossy_text(bytes: &[u8]) -> (text: String)
    ensures
        text@ == utf8_lossy(bytes@),
{
    String::from_utf8_lossy(bytes).into_owned()
}

/// An exit code as the log shows it.
pub open spec fn exit_code_text(code: Option<i32>) -> Seq<char> {
    match code {
        Some(n) => "Some("@ + signed_decimal(n as int) + ")"@,
        None => "None"@,
    }
}

/// The log record that an event of the backend server process leaves:
/// output chunks go to the stream they came from, as they are; failures and
/// the end of the process go to the diagnostics, one line each.
pub open spec fn log_of(event: SidecarEvent) -> Option<(LogStream, Seq<char>)> {
    match event {
        SidecarEvent::Stdout(bytes) => Some((LogStream::Output, utf8_lossy(bytes@))),
        SidecarEvent::Stderr(bytes) => Some((LogStream::Diagnostics, utf8_lossy(bytes@))),
        SidecarEvent::Error(e) => Some(
            (LogStream::Diagnostics, "[sidecar] process error: "@ + e@ + "\n"@),
        ),
        SidecarEvent::Terminated { code } => Some(
            (
                LogStream::Diagnostics,
                "[sidecar] process terminated: "@ + exit_code_text(code) + "\n"@,
            ),
        ),
        SidecarEvent::Other => None,
    }
}

/// Decides what an event of the backend server process adds to the host's log.
pub fn log_record(event: &SidecarEvent) -> (r: Option<LogRecord>)
    ensures
        r matches Some(record) ==> log_of(*event) == Some((record.stream, record.text@)),
        r is None ==> log_of(*event) is None,
{
    match event {
        SidecarEvent::Stdout(bytes) => Some(
            LogRecord { stream: LogStream::Output, text: lossy_text(bytes.as_slice()) },
        ),
        SidecarEvent::Stderr(bytes) => Some(
            LogRecord { stream: LogStream::Diagnostics, text: lossy_text(bytes.as_slice()) },
        ),
        SidecarEvent::Error(e) => {
            let mut text = join("[sidecar] process error: ", e.as_str());
            text.append("\n");
            Some(LogRecord { stream: LogStream::Diagnostics, text })
        },
        SidecarEvent::Terminated { code } => {
            let mut text = String::from_str("[sidecar] process terminated: ");
            match code {
                Some(n) => {
                    text.append("Some(");
                    push_signed_decimal(&mut text, *n);
                    text.append(")");
                },
                None => {
                    text.append("None");
                },
            }
            text.append("\n");
            Some(LogRecord { stream: LogStream::Diagnostics, text })
        },
        SidecarEvent::Other => None,
    }
}

} // verus!
