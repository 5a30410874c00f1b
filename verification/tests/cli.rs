use strim::cli::{Args, ClientArgs, Mode, ServerArgs};
use strim::DEFAULT_PORT;

/// Defaults of the unified tool's arguments.
#[test]
fn argument_defaults() {
    let server = ServerArgs::default();
    assert_eq!(server.port, DEFAULT_PORT);
    assert_eq!(server.device_id, "");
    let client = ClientArgs::default();
    assert_eq!(client.host, "localhost");
    assert_eq!(client.port, DEFAULT_PORT);

    let s = strim::server::cli_commands::Cli::default();
    assert_eq!(s.port, 8080);
    assert!(s.device_id.is_none());
    let c = strim::client::cli_commands::Cli::default();
    assert_eq!(c.host, "localhost");
    assert_eq!(c.port, 8080);
    let capture = strim::cli_commands::Cli { device_id: "mic".to_string() };
    assert_eq!(capture.device_id, "mic");
}

/// Without a subcommand the tool runs the server with the top-level
/// arguments; a subcommand's own arguments win otherwise.
#[test]
fn mode_selection() {
    let top = ServerArgs { port: 9000, device_id: "dev".to_string() };
    let args = Args { mode: None, server: top };
    match args.selected_mode() {
        Mode::Server(a) => {
            assert_eq!(a.port, 9000);
            assert_eq!(a.device_id, "dev");
        }
        Mode::Client(_) => panic!("Should run the server"),
    }

    let args = Args {
        mode: Some(Mode::Client(ClientArgs { host: "remote".to_string(), port: 1234 })),
        server: ServerArgs::default(),
    };
    match args.selected_mode() {
        Mode::Client(a) => {
            assert_eq!(a.host, "remote");
            assert_eq!(a.port, 1234);
        }
        Mode::Server(_) => panic!("Should run the client"),
    }

    let args = Args { mode: Some(Mode::Server(ServerArgs { port: 1, device_id: String::new() })), server: ServerArgs::default() };
    match args.selected_mode() {
        Mode::Server(a) => assert_eq!(a.port, 1),
        Mode::Client(_) => panic!("Should run the server"),
    }
}
