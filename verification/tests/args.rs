use netprobe::cli::args::AppMode;
use netprobe::cli::args::Cli;
use netprobe::cli::args::ClientArgs;
use netprobe::cli::args::Commands;
use netprobe::cli::args::HttpClientArgs;
use netprobe::cli::args::HttpCommands;
use netprobe::cli::args::ProtocolType;
use netprobe::cli::args::ServerArgs;
use netprobe::cli::args::TcpCommands;
use netprobe::cli::args::UdpCommands;
use netprobe::cli::args::WebSocketCommands;
use netprobe::cli::args::parse_address;
use netprobe::cli::args::parse_args;
use netprobe::cli::args::parse_dummy_addr;
use netprobe::cli::args::parse_port;
use netprobe::protocols::address::SocketAddress;

fn server(address: &str) -> ServerArgs {
    ServerArgs { address: address.to_string() }
}

fn client(local: &str, remote: &str) -> ClientArgs {
    ClientArgs { local: local.to_string(), remote: remote.to_string() }
}

fn request() -> HttpClientArgs {
    HttpClientArgs {
        method: "GET".to_string(),
        url: "http://example.test".to_string(),
        body: None,
        headers: vec!["A: b".to_string()],
    }
}

#[test]
fn ports_are_read_as_the_standard_parser_reads_them() {
    let cases = [
        "0", "1", "80", "8000", "65535", "65536", "99999", "100000", "0080", "00000000000000080",
        "+80", "+0", "+", "", "-1", "-0", " 80", "80 ", "8_0", "8a", "a8", "++80", "+-80", "0x50",
        "4294967376", "18446744073709551696", "\u{661}", "1\u{e9}",
    ];
    for text in cases {
        assert_eq!(parse_port(text), text.parse::<u16>().ok(), "for {:?}", text);
    }
    for n in [0u32, 9, 10, 99, 100, 65534, 65535, 65536, 65537, 70000, 655350, 655360] {
        let text = n.to_string();
        assert_eq!(parse_port(&text), text.parse::<u16>().ok(), "for {:?}", text);
    }
}

#[test]
fn a_port_alone_stands_for_loopback() {
    assert_eq!(parse_address("8080", None).unwrap(), SocketAddress::loopback(8080));
    assert_eq!(parse_address("0", None).unwrap(), SocketAddress::loopback(0));
    assert_eq!(parse_address("+443", None).unwrap(), SocketAddress::v4(127, 0, 0, 1, 443));
    let other = SocketAddress::v4(1, 1, 1, 1, 1);
    assert_eq!(parse_address("65535", Some(other)).unwrap(), SocketAddress::loopback(65535));
}

#[test]
fn a_full_address_is_taken_as_it_is() {
    let full = SocketAddress::v4(192, 168, 1, 1, 8000);
    assert_eq!(parse_address("192.168.1.1:8000", Some(full)).unwrap(), full);
    assert_eq!(parse_address("65536", Some(full)).unwrap(), full);
}

#[test]
fn a_text_that_is_no_address_is_refused() {
    for text in ["nonsense", "", "70000", "localhost", "localhost:80", "-1", "8000 "] {
        let e = parse_address(text, None).unwrap_err();
        assert_eq!(e.text, text);
        assert_eq!(e.describe(), format!("Invalid address: {}", text));
    }
}

#[test]
fn the_dummy_address_is_loopback_port_zero() {
    assert_eq!(parse_dummy_addr(), SocketAddress::v4(127, 0, 0, 1, 0));
}

#[test]
fn a_server_command_resolves_to_a_local_address_only() {
    let cli = Cli { vertical_layout: true, command: Commands::Tcp(TcpCommands::Server(server("9000"))) };
    let args = parse_args(cli, None, Some(SocketAddress::loopback(1))).unwrap();
    assert!(args.vertical_layout);
    assert_eq!(args.protocol, ProtocolType::Tcp);
    assert_eq!(args.mode, AppMode::Server);
    assert_eq!(args.local_addr, SocketAddress::loopback(9000));
    assert_eq!(args.remote_addr, None);
    assert!(args.http_args.is_none());
}

#[test]
fn a_client_command_resolves_both_addresses() {
    let full = SocketAddress::v4(10, 0, 0, 5, 7000);
    let cli = Cli {
        vertical_layout: false,
        command: Commands::Udp(UdpCommands::Client(client("5000", "10.0.0.5:7000"))),
    };
    let args = parse_args(cli, None, Some(full)).unwrap();
    assert!(!args.vertical_layout);
    assert_eq!(args.protocol, ProtocolType::Udp);
    assert_eq!(args.mode, AppMode::Client);
    assert_eq!(args.local_addr, SocketAddress::loopback(5000));
    assert_eq!(args.remote_addr, Some(full));
    assert!(args.http_args.is_none());
}

#[test]
fn an_unreadable_address_fails_the_command_line() {
    let both = |local: &str, remote: &str| Cli {
        vertical_layout: false,
        command: Commands::WebSocket(WebSocketCommands::Client(client(local, remote))),
    };
    assert_eq!(parse_args(both("x", "y"), None, None).unwrap_err().text, "x");
    assert_eq!(parse_args(both("x", "9"), None, None).unwrap_err().text, "x");
    assert_eq!(parse_args(both("8", "y"), None, None).unwrap_err().text, "y");
    let full = SocketAddress::v4(10, 0, 0, 5, 7000);
    assert_eq!(parse_args(both("x", "y"), Some(full), None).unwrap_err().text, "y");
    let args = parse_args(both("x", "y"), Some(full), Some(full)).unwrap();
    assert_eq!(args.local_addr, full);
    assert_eq!(args.remote_addr, Some(full));
    let listen = Cli {
        vertical_layout: false,
        command: Commands::Tcp(TcpCommands::Server(server("localhost"))),
    };
    assert_eq!(parse_args(listen, None, None).unwrap_err().text, "localhost");
}

#[test]
fn an_http_client_command_keeps_its_request() {
    for (make, protocol) in [
        (Commands::Http as fn(HttpCommands) -> Commands, ProtocolType::Http),
        (Commands::Http2 as fn(HttpCommands) -> Commands, ProtocolType::Http2),
        (Commands::Http3 as fn(HttpCommands) -> Commands, ProtocolType::Http3),
    ] {
        let cli = Cli { vertical_layout: false, command: make(HttpCommands::HttpClient(request())) };
        let args =
            parse_args(cli, Some(SocketAddress::loopback(1)), Some(SocketAddress::loopback(2)))
                .unwrap();
        assert_eq!(args.protocol, protocol);
        assert_eq!(args.mode, AppMode::Client);
        assert_eq!(args.local_addr, SocketAddress::loopback(0));
        assert_eq!(args.remote_addr, None);
        let kept = args.http_args.unwrap();
        assert_eq!(kept.method, "GET");
        assert_eq!(kept.url, "http://example.test");
        assert_eq!(kept.body, None);
        assert_eq!(kept.headers, vec!["A: b"]);
    }
}

#[test]
fn every_server_command_names_its_protocol() {
    let commands = vec![
        (Commands::Tcp(TcpCommands::Server(server("1"))), ProtocolType::Tcp),
        (Commands::Udp(UdpCommands::Server(server("1"))), ProtocolType::Udp),
        (Commands::WebSocket(WebSocketCommands::Server(server("1"))), ProtocolType::WebSocket),
        (Commands::Http(HttpCommands::Server(server("1"))), ProtocolType::Http),
        (Commands::Http2(HttpCommands::Server(server("1"))), ProtocolType::Http2),
        (Commands::Http3(HttpCommands::Server(server("1"))), ProtocolType::Http3),
    ];
    for (command, protocol) in commands {
        assert_eq!(command.protocol(), protocol);
        assert_eq!(command.local_text(), Some("1"));
        assert_eq!(command.remote_text(), None);
        let args = parse_args(Cli { vertical_layout: false, command }, None, None).unwrap();
        assert_eq!(args.protocol, protocol);
        assert_eq!(args.mode, AppMode::Server);
        assert_eq!(args.local_addr, SocketAddress::loopback(1));
    }
}

#[test]
fn address_texts_of_clients() {
    let tcp = Commands::Tcp(TcpCommands::Client(client("l", "r")));
    assert_eq!(tcp.local_text(), Some("l"));
    assert_eq!(tcp.remote_text(), Some("r"));
    let http = Commands::Http(HttpCommands::HttpClient(request()));
    assert_eq!(http.local_text(), None);
    assert_eq!(http.remote_text(), None);
}
