use bambu::types::command::{Command, InfoCommand, PrintCommand};
use bambu::types::Action;
use bambu::{ConnectOpts, DEFAULT_PORT};

#[test]
fn command_constructors() {
    assert_eq!(
        Command::print(5, PrintCommand::Pause),
        Command::Print { sequence_id: 5, command: PrintCommand::Pause }
    );
    assert_eq!(
        Command::info(9, InfoCommand::GetVersion),
        Command::Info { sequence_id: 9, command: InfoCommand::GetVersion }
    );
}

#[test]
fn action_codes() {
    assert_eq!(Action::Printing.code(), 0);
    assert_eq!(Action::GearBedTempMalfunction.code(), 21);
    assert_eq!(Action::Idle.code(), 255);
    assert_eq!(Action::from_code(9), Some(Action::ScanningBedSurface));
    assert_eq!(Action::from_code(255), Some(Action::Idle));
    assert_eq!(Action::from_code(22), None);
}

#[test]
fn connect_options() {
    let d = ConnectOpts::default();
    assert_eq!(d.port, DEFAULT_PORT);
    assert_eq!(d.port, 8883);
    assert!(d.hostname.is_empty() && d.access_code.is_empty());
    let o = ConnectOpts { hostname: "192.168.1.20".to_string(), port: 8883, access_code: "12345678".to_string() };
    assert_eq!(o.server_uri(), "mqtts://192.168.1.20:8883");
    assert_eq!(o.user_name(), "bblp");
    let p = ConnectOpts { port: 0, ..o.clone() };
    assert_eq!(p.server_uri(), "mqtts://192.168.1.20:0");
    let q = ConnectOpts { access_code: "other".to_string(), ..o.clone() };
    assert!(o.same_printer(&q));
    assert!(!o.same_printer(&p));
    let h = ConnectOpts { hostname: "192.168.1.21".to_string(), ..o.clone() };
    assert!(!o.same_printer(&h));
}
