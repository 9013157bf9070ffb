//! The command line as plain values, and how it resolves to what the
//! program runs with.

use vstd::prelude::*;
use vstd::string::StringExecFns;

use crate::protocols::address::SocketAddress;

verus! {

/// The command line as it was given.
#[derive(Debug, Clone)]
pub struct Cli {
    /// Send pane above the receive pane instead of beside it.
    pub vertical_layout: bool,
    pub command: Commands,
}

/// The protocol chosen, with its mode and addresses.
#[derive(Debug, Clone)]
pub enum Commands {
    Tcp(TcpCommands),
    Udp(UdpCommands),
    WebSocket(WebSocketCommands),
    Http(HttpCommands),
    Http2(HttpCommands),
    Http3(HttpCommands),
}

#[derive(Debug, Clone)]
pub enum TcpCommands {
    Server(ServerArgs),
    Client(ClientArgs),
}

#[derive(Debug, Clone)]
pub enum UdpCommands {
    Server(ServerArgs),
    Client(ClientArgs),
}

#[derive(Debug, Clone)]
pub enum WebSocketCommands {
    Server(ServerArgs),
    Client(ClientArgs),
}

/// The modes of the three HTTP versions.
#[derive(Debug, Clone)]
pub enum HttpCommands {
    Server(ServerArgs),
    HttpClient(HttpClientArgs),
}

#[derive(Debug, Clone)]
pub struct ServerArgs {
    /// The address to listen on, such as `127.0.0.1:8000`, or a port alone.
    pub address: String,
}

#[derive(Debug, Clone)]
pub struct ClientArgs {
    /// The local address, such as `127.0.0.1:9000`, or a port alone.
    pub local: String,
    /// The address of the server, such as `192.168.1.1:8000`.
    pub remote: String,
}

#[derive(Debug, Clone)]
pub struct HttpClientArgs {
    /// The request method: `GET`, `POST`, `PUT` and so on.
    pub method: String,
    /// The target URL.
    pub url: String,
    /// The request body, for the methods that have one.
    pub body: Option<String>,
    /// Request headers, each as `Header-Name: Value`.
    pub headers: Vec<String>,
}

/// What the program runs with.
#[derive(Debug, Clone)]
pub struct Args {
    pub vertical_layout: bool,
    pub protocol: ProtocolType,
    pub mode: AppMode,
    pub local_addr: SocketAddress,
    /// The address of the server, for the clients that are given one.
    pub remote_addr: Option<SocketAddress>,
    /// The request, for the HTTP clients.
    pub http_args: Option<HttpClientArgs>,
}

#[derive(Debug, Clone, Copy, PartialEq, Eq, Structural)]
pub enum ProtocolType {
    Tcp,
    Udp,
    WebSocket,
    Http,
    Http2,
    Http3,
}

#[derive(Debug, Clone, Copy, PartialEq, Eq, Structural)]
pub enum AppMode {
    Server,
    Client,
}

/// An address text that names no address: it is neither a port alone nor
/// a full socket address.
#[derive(Debug, Clone)]
pub struct InvalidAddress {
    /// The text as it was given.
    pub text: String,
}

impl InvalidAddress {
    /// The error in words.
    pub open spec fn spec_describe(self) -> Seq<char> {
        "Invalid address: "@ + self.text@
    }

    /// The error in words.
    pub fn describe(&self) -> (words: String)
        ensures
            words@ == self.spec_describe(),
    {
        String::from_str("Invalid address: ").concat(self.text.as_str())
    }
}

/// Whether every character of a text is a decimal digit.
pub open spec fn all_digits(s: Seq<char>) -> bool {
    forall|i: int| 0 <= i < s.len() ==> '0' <= #[trigger] s[i] <= '9'
}

/// The number that a text of decimal digits writes.
pub open spec fn digits_value(s: Seq<char>) -> nat
    decreases s.len(),
{
    if s.len() == 0 {
        0
    } else {
        digits_value(s.drop_last()) * 10 + (s.last() as nat - '0' as nat) as nat
    }
}

/// A text without its leading plus sign, if it has one.
pub open spec fn unsigned_part(s: Seq<char>) -> Seq<char> {
    if s.len() > 0 && s[0] == '+' {
        s.skip(1)
    } else {
        s
    }
}

/// The port that a text names: an optional plus sign, then one or more
/// decimal digits and nothing else, writing a number up to 65535. Leading
/// zeros are allowed. Any other text names no port.
pub open spec fn spec_parse_port(s: Seq<char>) -> Option<u16> {
    let digits = unsigned_part(s);
    if digits.len() > 0 && all_digits(digits) && digits_value(digits) <= 65535 {
        Some(digits_value(digits) as u16)
    } else {
        None
    }
}

proof fn lemma_digits_value_grows(s: Seq<char>, n: int)
    requires
        0 <= n <= s.len(),
        all_digits(s),
    ensures
        digits_value(s.take(n)) <= digits_value(s),
    decreases s.len() - n,
{
    if n < s.len() {
        lemma_digits_value_grows(s, n + 1);
        assert(s.take(n + 1).drop_last() == s.take(n));
        assert(s.take(n + 1).last() == s[n]);
    } else {
        assert(s.take(n) == s);
    }
}

fn decimal_digit(c: char) -> (r: Option<u32>)
    ensures
        r is Some == ('0' <= c <= '9'),
        r matches Some(d) ==> d == c as nat - '0' as nat,
{
    let code = c as u32;
    if 48 <= code && code <= 57 {
        Some(code - 48)
    } else {
        None
    }
}

/// Reads a port number. See `spec_parse_port` for what is accepted.
pub fn parse_port(text: &str) -> (port: Option<u16>)
    ensures
        port == spec_parse_port(text@),
{
    let ghost digits = unsigned_part(text@);
    let ghost offset: int = if text@.len() > 0 && text@[0] == '+' {
        1
    } else {
        0
    };
    let ghost mut seen: int = 0;
    let mut value: u32 = 0;
    let mut any = false;
    let mut first = true;
    for c in it: text.chars()
        invariant
            it.seq() == text@,
            digits == unsigned_part(text@),
            offset == (if text@.len() > 0 && text@[0] == '+' {
                1int
            } else {
                0int
            }),
            first == (it.index() == 0),
            it.index() >= offset ==> seen == it.index() - offset,
            it.index() < offset ==> seen == 0,
            0 <= seen <= digits.len(),
            any == (seen > 0),
            all_digits(digits.take(seen)),
            value == digits_value(digits.take(seen)),
            value <= 65535,
    {
        let was_first = first;
        first = false;
        if was_first && c == '+' {
            assert(offset == 1);
        } else {
            assert(it.index() >= offset);
            assert(digits[seen] == c);
            proof {
                assert(digits.take(seen + 1).drop_last() == digits.take(seen));
                assert(digits.take(seen + 1).last() == c);
            }
            let digit = match decimal_digit(c) {
                Some(digit) => digit,
                None => {
                    assert(!all_digits(digits));
                    return None;
                },
            };
            let next = value * 10 + digit;
            proof {
                assert forall|i: int| 0 <= i < seen + 1 implies '0' <= #[trigger] digits.take(
                    seen + 1,
                )[i] <= '9' by {
                    if i < seen {
                        assert(digits.take(seen + 1)[i] == digits.take(seen)[i]);
                    } else {
                        assert(digits.take(seen + 1)[i] == c);
                    }
                }
            }
            if next > 65535 {
                proof {
                    if all_digits(digits) {
                        lemma_digits_value_grows(digits, seen + 1);
                    }
                }
                return None;
            }
            value = next;
            any = true;
            proof {
                seen = seen + 1;
            }
        }
    }
    proof {
        assert(seen == digits.len());
        assert(digits.take(seen) == digits);
    }
    if any {
        Some(value as u16)
    } else {
        None
    }
}

/// The address that an address text resolves to, given what reading it as a
/// full socket address came to: a port alone stands for that port on
/// `127.0.0.1`; otherwise a full address is taken as it is. A text that is
/// neither resolves to no address.
pub open spec fn spec_parse_address(text: Seq<char>, full: Option<SocketAddress>) -> Option<
    SocketAddress,
> {
    match spec_parse_port(text) {
        Some(port) => Some(SocketAddress::spec_loopback(port)),
        None => full,
    }
}

/// Resolves an address text. `full` is what reading the text as a full
/// socket address gave, `None` where it is not one. A text that is neither
/// a port alone nor a full address is refused, and the error carries the
/// text: no address is put in its place.
pub fn parse_address(addr_str: &str, full: Option<SocketAddress>) -> (r: Result<
    SocketAddress,
    InvalidAddress,
>)
    ensures
        match spec_parse_address(addr_str@, full) {
            Some(addr) => r == Ok::<SocketAddress, InvalidAddress>(addr),
            None => r matches Err(e) && e.text@ == addr_str@,
        },
{
    match parse_port(addr_str) {
        Some(port) => Ok(SocketAddress::loopback(port)),
        None => match full {
            Some(addr) => Ok(addr),
            None => Err(InvalidAddress { text: String::from_str(addr_str) }),
        },
    }
}

/// The local address of an HTTP client, which binds to no address of its
/// own: `127.0.0.1:0`.
pub fn parse_dummy_addr() -> (addr: SocketAddress)
    ensures
        addr == SocketAddress::spec_loopback(0),
{
    SocketAddress::loopback(0)
}

impl Commands {
    /// The protocol that the command names.
    pub open spec fn spec_protocol(self) -> ProtocolType {
        match self {
            Commands::Tcp(_) => ProtocolType::Tcp,
            Commands::Udp(_) => ProtocolType::Udp,
            Commands::WebSocket(_) => ProtocolType::WebSocket,
            Commands::Http(_) => ProtocolType::Http,
            Commands::Http2(_) => ProtocolType::Http2,
            Commands::Http3(_) => ProtocolType::Http3,
        }
    }

    /// The mode that the command names.
    pub open spec fn spec_mode(self) -> AppMode {
        match self {
            Commands::Tcp(TcpCommands::Server(_)) => AppMode::Server,
            Commands::Udp(UdpCommands::Server(_)) => AppMode::Server,
            Commands::WebSocket(WebSocketCommands::Server(_)) => AppMode::Server,
            Commands::Http(HttpCommands::Server(_)) => AppMode::Server,
            Commands::Http2(HttpCommands::Server(_)) => AppMode::Server,
            Commands::Http3(HttpCommands::Server(_)) => AppMode::Server,
            _ => AppMode::Client,
        }
    }

    /// The text of the local address, where the command has one: the
    /// address of a server, the local address of a client.
    pub open spec fn spec_local_text(self) -> Option<Seq<char>> {
        match self {
            Commands::Tcp(TcpCommands::Server(a)) => Some(a.address@),
            Commands::Tcp(TcpCommands::Client(a)) => Some(a.local@),
            Commands::Udp(UdpCommands::Server(a)) => Some(a.address@),
            Commands::Udp(UdpCommands::Client(a)) => Some(a.local@),
            Commands::WebSocket(WebSocketCommands::Server(a)) => Some(a.address@),
            Commands::WebSocket(WebSocketCommands::Client(a)) => Some(a.local@),
            Commands::Http(HttpCommands::Server(a)) => Some(a.address@),
            Commands::Http2(HttpCommands::Server(a)) => Some(a.address@),
            Commands::Http3(HttpCommands::Server(a)) => Some(a.address@),
            _ => None,
        }
    }

    /// The text of the remote address, where the command has one.
    pub open spec fn spec_remote_text(self) -> Option<Seq<char>> {
        match self {
            Commands::Tcp(TcpCommands::Client(a)) => Some(a.remote@),
            Commands::Udp(UdpCommands::Client(a)) => Some(a.remote@),
            Commands::WebSocket(WebSocketCommands::Client(a)) => Some(a.remote@),
            _ => None,
        }
    }

    /// The request of an HTTP client.
    pub open spec fn spec_http_args(self) -> Option<HttpClientArgs> {
        match self {
            Commands::Http(HttpCommands::HttpClient(a)) => Some(a),
            Commands::Http2(HttpCommands::HttpClient(a)) => Some(a),
            Commands::Http3(HttpCommands::HttpClient(a)) => Some(a),
            _ => None,
        }
    }

    /// The protocol that the command names.
    pub fn protocol(&self) -> (p: ProtocolType)
        ensures
            p == self.spec_protocol(),
    {
        match self {
            Commands::Tcp(_) => ProtocolType::Tcp,
            Commands::Udp(_) => ProtocolType::Udp,
            Commands::WebSocket(_) => ProtocolType::WebSocket,
            Commands::Http(_) => ProtocolType::Http,
            Commands::Http2(_) => ProtocolType::Http2,
            Commands::Http3(_) => ProtocolType::Http3,
        }
    }

    /// The text of the local address, where the command has one.
    pub fn local_text(&self) -> (text: Option<&str>)
        ensures
            text is Some == self.spec_local_text() is Some,
            text matches Some(t) ==> Some(t@) == self.spec_local_text(),
    {
        match self {
            Commands::Tcp(TcpCommands::Server(a)) => Some(a.address.as_str()),
            Commands::Tcp(TcpCommands::Client(a)) => Some(a.local.as_str()),
            Commands::Udp(UdpCommands::Server(a)) => Some(a.address.as_str()),
            Commands::Udp(UdpCommands::Client(a)) => Some(a.local.as_str()),
            Commands::WebSocket(WebSocketCommands::Server(a)) => Some(a.address.as_str()),
            Commands::WebSocket(WebSocketCommands::Client(a)) => Some(a.local.as_str()),
            Commands::Http(HttpCommands::Server(a)) => Some(a.address.as_str()),
            Commands::Http2(HttpCommands::Server(a)) => Some(a.address.as_str()),
            Commands::Http3(HttpCommands::Server(a)) => Some(a.address.as_str()),
            _ => None,
        }
    }

    /// The text of the remote address, where the command has one.
    pub fn remote_text(&self) -> (text: Option<&str>)
        ensures
            text is Some == self.spec_remote_text() is Some,
            text matches Some(t) ==> Some(t@) == self.spec_remote_text(),
    {
        match self {
            Commands::Tcp(TcpCommands::Client(a)) => Some(a.remote.as_str()),
            Commands::Udp(UdpCommands::Client(a)) => Some(a.remote.as_str()),
            Commands::WebSocket(WebSocketCommands::Client(a)) => Some(a.remote.as_str()),
            _ => None,
        }
    }
}

/// The local address that a command resolves to: the one that its local
/// address text names, `127.0.0.1:0` for an HTTP client, which has no such
/// text, and none where the text names no address.
pub open spec fn spec_local_addr(command: Commands, local_full: Option<SocketAddress>) -> Option<
    SocketAddress,
> {
    match command.spec_local_text() {
        Some(text) => spec_parse_address(text, local_full),
        None => Some(SocketAddress::spec_loopback(0)),
    }
}

/// What a command line resolves to, given what reading its two address
/// texts as full socket addresses came to. A server has a local address and
/// nothing else; a TCP, UDP or WebSocket client has a local and a remote
/// address; an HTTP client has the local address `127.0.0.1:0` and its
/// request. A command line with an address text that names no address
/// resolves to that text as an error, the local one before the remote one.
pub open spec fn spec_parse_args(
    cli: Cli,
    local_full: Option<SocketAddress>,
    remote_full: Option<SocketAddress>,
) -> Result<Args, Seq<char>> {
    match spec_local_addr(cli.command, local_full) {
        None => Err(cli.command.spec_local_text().unwrap()),
        Some(local_addr) => match cli.command.spec_remote_text() {
            Some(text) => match spec_parse_address(text, remote_full) {
                None => Err(text),
                Some(remote) => Ok(
                    Args {
                        vertical_layout: cli.vertical_layout,
                        protocol: cli.command.spec_protocol(),
                        mode: cli.command.spec_mode(),
                        local_addr,
                        remote_addr: Some(remote),
                        http_args: cli.command.spec_http_args(),
                    },
                ),
            },
            None => Ok(
                Args {
                    vertical_layout: cli.vertical_layout,
                    protocol: cli.command.spec_protocol(),
                    mode: cli.command.spec_mode(),
                    local_addr,
                    remote_addr: None,
                    http_args: cli.command.spec_http_args(),
                },
            ),
        },
    }
}

/// Resolves a command line. `local_full` and `remote_full` are what reading
/// the local and the remote address text as full socket addresses gave;
/// they are looked at only where the command has that text and it is not a
/// port alone. An address text that names no address is refused: the call
/// fails with that text.
pub fn parse_args(
    cli: Cli,
    local_full: Option<SocketAddress>,
    remote_full: Option<SocketAddress>,
) -> (r: Result<Args, InvalidAddress>)
    ensures
        match spec_parse_args(cli, local_full, remote_full) {
            Ok(args) => r == Ok::<Args, InvalidAddress>(args),
            Err(text) => r matches Err(e) && e.text@ == text,
        },
{
    let protocol = cli.command.protocol();
    let local_addr = match cli.command.local_text() {
        Some(text) => match parse_address(text, local_full) {
            Ok(addr) => addr,
            Err(e) => {
                return Err(e);
            },
        },
        None => parse_dummy_addr(),
    };
    let remote_addr = match cli.command.remote_text() {
        Some(text) => match parse_address(text, remote_full) {
            Ok(addr) => Some(addr),
            Err(e) => {
                return Err(e);
            },
        },
        None => None,
    };
    let (mode, http_args) = match cli.command {
        Commands::Tcp(TcpCommands::Server(_)) => (AppMode::Server, None),
        Commands::Udp(UdpCommands::Server(_)) => (AppMode::Server, None),
        Commands::WebSocket(WebSocketCommands::Server(_)) => (AppMode::Server, None),
        Commands::Http(HttpCommands::Server(_)) => (AppMode::Server, None),
        Commands::Http2(HttpCommands::Server(_)) => (AppMode::Server, None),
        Commands::Http3(HttpCommands::Server(_)) => (AppMode::Server, None),
        Commands::Tcp(TcpCommands::Client(_)) => (AppMode::Client, None),
        Commands::Udp(UdpCommands::Client(_)) => (AppMode::Client, None),
        Commands::WebSocket(WebSocketCommands::Client(_)) => (AppMode::Client, None),
        Commands::Http(HttpCommands::HttpClient(a)) => (AppMode::Client, Some(a)),
        Commands::Http2(HttpCommands::HttpClient(a)) => (AppMode::Client, Some(a)),
        Commands::Http3(HttpCommands::HttpClient(a)) => (AppMode::Client, Some(a)),
    };
    Ok(Args { vertical_layout: cli.vertical_layout, protocol, mode, local_addr, remote_addr, http_args })
}

} // verus!
