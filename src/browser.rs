//! The browser families a run can target, and the command line of the driver
//! server that each one needs.
use vstd::prelude::*;
use vstd::string::StringExecFns;

verus! {

/// Which WebDriver server, if any, a run starts.
#[derive(Clone, Copy, Debug, PartialEq, Eq, Structural)]
pub enum Browser {
    /// A Chrome-compatible server (`chromedriver`).
    Chrome,
    /// A Gecko-compatible server (`geckodriver`).
    Gecko,
    /// No server is started: the endpoint is managed by someone else.
    NoDriver,
}

/// The decimal digit `d` as a character.
pub open spec fn digit_char(d: nat) -> char {
    seq!['0', '1', '2', '3', '4', '5', '6', '7', '8', '9'][d as int]
}

/// The decimal notation of `n`, without leading zeros.
pub open spec fn decimal(n: nat) -> Seq<char>
    decreases n,
{
    if n < 10 {
        seq![digit_char(n)]
    } else {
        decimal(n / 10) + seq![digit_char(n % 10)]
    }
}

/// The name of the driver executable for a browser, if one is started.
pub open spec fn program_of(b: Browser) -> Option<Seq<char>> {
    match b {
        Browser::Chrome => Some("chromedriver"@),
        Browser::Gecko => Some("geckodriver"@),
        Browser::NoDriver => None,
    }
}

/// The single argument a driver server is started with: `--port=<port>`.
pub open spec fn port_argument_of(port: u16) -> Seq<char> {
    "--port="@ + decimal(port as nat)
}

/// How one of a child's standard streams is connected.
#[derive(Clone, Copy, Debug, PartialEq, Eq, Structural)]
pub enum StreamMode {
    /// Attached to an empty source, or to a sink that discards.
    Null,
    /// Captured through a pipe that the parent can read or write.
    Piped,
    /// Shared with the parent's own stream.
    Inherit,
}

/// A program, its arguments and its stream set-up, ready to be spawned.
pub struct LaunchCommand {
    pub program: String,
    pub args: Vec<String>,
    pub stdin: StreamMode,
    pub stdout: StreamMode,
    pub stderr: StreamMode,
}

fn digit_str(d: u16) -> (r: &'static str)
    requires
        d < 10,
    ensures
        r@ == seq![digit_char(d as nat)],
{
    proof {
        reveal_strlit("0");
        reveal_strlit("1");
        reveal_strlit("2");
        reveal_strlit("3");
        reveal_strlit("4");
        reveal_strlit("5");
        reveal_strlit("6");
        reveal_strlit("7");
        reveal_strlit("8");
        reveal_strlit("9");
    }
    let r = match d {
        0 => "0",
        1 => "1",
        2 => "2",
        3 => "3",
        4 => "4",
        5 => "5",
        6 => "6",
        7 => "7",
        8 => "8",
        _ => "9",
    };
    assert(r@ =~= seq![digit_char(d as nat)]);
    r
}

/// Appends the decimal notation of `n` to `s`.
pub fn push_decimal(s: &mut String, n: u16)
    ensures
        final(s)@ == old(s)@ + decimal(n as nat),
    decreases n,
{
    if n >= 10 {
        push_decimal(s, n / 10);
    }
    s.append(digit_str(n % 10));
    assert(final(s)@ =~= old(s)@ + decimal(n as nat));
}

/// The argument that tells a driver server which port to listen on.
pub fn port_argument(port: u16) -> (r: String)
    ensures
        r@ == port_argument_of(port),
{
    let mut s = String::from_str("--port=");
    push_decimal(&mut s, port);
    s
}

/// The command that starts the driver server for `browser` on `port`, or
/// `None` where the browser kind asks for no server. Its stdin is empty and its
/// output streams are captured, neither inherited nor discarded.
pub fn launch_command(browser: Browser, port: u16) -> (r: Option<LaunchCommand>)
    ensures
        r is None <==> program_of(browser) is None,
        r matches Some(c) ==> {
            &&& Some(c.program@) == program_of(browser)
            &&& c.args@.len() == 1
            &&& c.args@[0]@ == port_argument_of(port)
            &&& c.stdin == StreamMode::Null
            &&& c.stdout == StreamMode::Piped
            &&& c.stderr == StreamMode::Piped
        },
{
    let program = match browser {
        Browser::Chrome => String::from_str("chromedriver"),
        Browser::Gecko => String::from_str("geckodriver"),
        Browser::NoDriver => {
            return None;
        },
    };
    let args = vec![port_argument(port)];
    Some(
        LaunchCommand {
            program,
            args,
            stdin: StreamMode::Null,
            stdout: StreamMode::Piped,
            stderr: StreamMode::Piped,
        },
    )
}

} // verus!
