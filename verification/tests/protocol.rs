use mc_server_wrapper::errors::WrapperError;
use mc_server_wrapper::protocol::frame_command;
use mc_server_wrapper::protocol::line_is_ready;
use mc_server_wrapper::protocol::parse_player_list;
use mc_server_wrapper::protocol::spawn_args;
use mc_server_wrapper::text::decimal;
use mc_server_wrapper::text::find_last;
use mc_server_wrapper::text::split;
use mc_server_wrapper::text::trim;

#[test]
fn list_response_with_two_players() {
    let line = "[16:14:22] [Server thread/INFO]: There are 2 of a max of 20 players online: alice, bob";
    let players = parse_player_list(line).unwrap();
    assert_eq!(players, vec!["alice".to_string(), "bob".to_string()]);
}

#[test]
fn list_response_with_empty_suffix() {
    let line = "[16:14:22] [Server thread/INFO]: ";
    let players = parse_player_list(line).unwrap();
    assert!(players.is_empty());
}

#[test]
fn list_response_single_player() {
    let line = "There are 1 of a max of 20 players online: carl";
    let players = parse_player_list(line).unwrap();
    assert_eq!(players, vec!["carl".to_string()]);
}

#[test]
fn list_response_without_separator_is_violation() {
    let line = "no separator in this line";
    assert_eq!(parse_player_list(line), Err(WrapperError::ProtocolViolation));
}

#[test]
fn ready_marker_detection() {
    assert!(line_is_ready(
        "[02:00:14] [Server thread/INFO]: Done (9.797s)! For help, type \"help\""
    ));
    assert!(line_is_ready("Done"));
    assert!(!line_is_ready("[02:00:10] [Server thread/INFO]: Starting minecraft server"));
    assert!(!line_is_ready(""));
    assert!(!line_is_ready("Don"));
}

#[test]
fn framing_appends_newline_only_when_missing() {
    assert_eq!(frame_command("/list"), "/list\n");
    assert_eq!(frame_command("/stop\n"), "/stop\n");
    assert_eq!(frame_command(""), "\n");
}

#[test]
fn spawn_args_shape() {
    let args = spawn_args(2048, "server.jar");
    assert_eq!(
        args,
        vec![
            "-Dlog4j2.formatMsgNoLookups=true".to_string(),
            "-Xmx2048m".to_string(),
            "-jar".to_string(),
            "server.jar".to_string(),
            "nogui".to_string(),
        ]
    );
}

#[test]
fn decimal_rendering() {
    assert_eq!(decimal(0), "0");
    assert_eq!(decimal(7), "7");
    assert_eq!(decimal(1024), "1024");
    assert_eq!(decimal(u64::MAX), "18446744073709551615");
}

#[test]
fn trim_strips_only_surrounding_spaces() {
    assert_eq!(trim("  alice "), "alice");
    assert_eq!(trim("bob"), "bob");
    assert_eq!(trim("   "), "");
    assert_eq!(trim("a b"), "a b");
}

#[test]
fn split_keeps_empty_tokens() {
    assert_eq!(split("a,b", ','), vec!["a".to_string(), "b".to_string()]);
    assert_eq!(split("", ','), vec!["".to_string()]);
    assert_eq!(split("a,,b", ','), vec!["a".to_string(), "".to_string(), "b".to_string()]);
}

#[test]
fn find_last_returns_rightmost() {
    assert_eq!(find_last("a: b: c", ": "), Some(4));
    assert_eq!(find_last("abc", ": "), None);
    assert_eq!(find_last("x/y/z.jar", "/"), Some(3));
}
