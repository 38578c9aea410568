use canalhas_manager::port::{
    unix_kills, unix_lookup, windows_kills, windows_lookup, SystemCommand,
};

fn command(program: &str, args: &[&str]) -> SystemCommand {
    SystemCommand {
        program: program.to_string(),
        args: args.iter().map(|a| a.to_string()).collect(),
    }
}

#[test]
fn unix_asks_lsof_for_the_port() {
    assert_eq!(unix_lookup("27015"), command("lsof", &["-t", "-i:27015"]));
    assert_eq!(unix_lookup(""), command("lsof", &["-t", "-i:"]));
}

#[test]
fn unix_kills_every_listed_process() {
    assert_eq!(
        unix_kills("1234\n5678\n"),
        vec![command("kill", &["-9", "1234"]), command("kill", &["-9", "5678"])]
    );
    assert_eq!(unix_kills("42"), vec![command("kill", &["-9", "42"])]);
    assert!(unix_kills("").is_empty());
    assert_eq!(unix_kills("1\n\n2\r\n"), vec![
        command("kill", &["-9", "1"]),
        command("kill", &["-9", ""]),
        command("kill", &["-9", "2"]),
    ]);
}

#[test]
fn windows_asks_netstat_for_all_connections() {
    assert_eq!(windows_lookup(), command("netstat", &["-ano"]));
}

#[test]
fn windows_kills_the_holders_named_on_lines_of_the_port() {
    let listing = "\r\nActive Connections\r\n\r\n  Proto  Local Address  Foreign Address  State  PID\r\n  TCP    0.0.0.0:135    0.0.0.0:0  LISTENING  996\r\n  UDP    0.0.0.0:27015  *:*               4321\r\n  TCP    10.0.0.2:27015 10.0.0.9:50000  ESTABLISHED  4322\r\n";
    assert_eq!(
        windows_kills(listing, "27015"),
        vec![
            command("taskkill", &["/F", "/PID", "4321"]),
            command("taskkill", &["/F", "/PID", "4322"]),
        ]
    );
    assert!(windows_kills(listing, "9999").is_empty());
    assert!(windows_kills("", "27015").is_empty());
}

#[test]
fn windows_matches_the_port_anywhere_on_the_line() {
    let listing = "TCP 1.1.1.1:270150 x 11\nTCP 1.1.1.1:80 2.2.2.2:27015 12\n";
    assert_eq!(
        windows_kills(listing, "27015"),
        vec![
            command("taskkill", &["/F", "/PID", "11"]),
            command("taskkill", &["/F", "/PID", "12"]),
        ]
    );
}
