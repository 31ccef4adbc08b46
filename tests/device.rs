use race_core::actor::start_race_outcome;
use race_core::device::{
    decode_telemetry, get_available_devices, reader_step, select_device, Commands, PortDescriptor,
    ReadOutcome, ReaderStep,
};
use race_core::model::ErrorKind;

fn port(name: &str, usb: bool) -> PortDescriptor {
    PortDescriptor { name: name.to_string(), usb }
}

#[test]
fn start_race_frame() {
    assert_eq!(Commands::StartRace.frame(), "r:s\n");
    assert_eq!(Commands::StartRace.frame().as_bytes(), b"r:s\n");
}

#[test]
fn only_usb_ports_are_devices() {
    let ports = vec![
        port("/dev/ttyS0", false),
        port("/dev/ttyUSB0", true),
        port("/dev/ttyS1", false),
        port("/dev/ttyACM0", true),
    ];
    assert_eq!(get_available_devices(ports), vec!["/dev/ttyUSB0", "/dev/ttyACM0"]);
}

#[test]
fn last_device_is_selected() {
    let ports = vec!["/dev/ttyUSB0".to_string(), "/dev/ttyACM0".to_string()];
    assert_eq!(select_device(ports), Some("/dev/ttyACM0".to_string()));
    assert_eq!(select_device(Vec::new()), None);
}

#[test]
fn no_device_means_start_race_fails() {
    let devices = get_available_devices(vec![port("/dev/ttyS0", false)]);
    assert!(devices.is_empty());
    assert_eq!(select_device(devices), None);
    let r = start_race_outcome(false);
    assert_eq!(r.unwrap_err().kind, ErrorKind::Device);
    assert!(start_race_outcome(true).is_ok());
}

#[test]
fn telemetry_line_is_split_on_colons() {
    let f = decode_telemetry("1234:R1:87\r\n");
    assert_eq!(f.line, "1234:R1:87");
    assert_eq!(f.fields, vec!["1234", "R1", "87"]);
}

#[test]
fn telemetry_edge_cases() {
    let f = decode_telemetry("\n");
    assert_eq!(f.line, "");
    assert_eq!(f.fields, vec![""]);
    let g = decode_telemetry("a::b:");
    assert_eq!(g.line, "a::b:");
    assert_eq!(g.fields, vec!["a", "", "b", ""]);
    let h = decode_telemetry("no separator");
    assert_eq!(h.fields, vec!["no separator"]);
}

#[test]
fn reader_decisions() {
    match reader_step(ReadOutcome::Line("5:R2:90\n".to_string())) {
        ReaderStep::Forward(f) => {
            assert_eq!(f.line, "5:R2:90");
            assert_eq!(f.fields, vec!["5", "R2", "90"]);
        }
        other => panic!("unexpected step {:?}", other),
    }
    assert!(matches!(reader_step(ReadOutcome::TimedOut), ReaderStep::Retry));
    assert!(matches!(reader_step(ReadOutcome::Line(String::new())), ReaderStep::Retry));
    match reader_step(ReadOutcome::Failed("broken pipe".to_string())) {
        ReaderStep::Report(m) => assert_eq!(m, "broken pipe"),
        other => panic!("unexpected step {:?}", other),
    }
}
