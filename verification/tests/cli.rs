use fsapi::cli::config::{Config, Connection};
use fsapi::cli::error::Error;
use fsapi::cli::{get_volume, mute, power, Command, Number, Step, Volume};
use fsapi::radio::plan::Write;
use fsapi::value::Value;
use fsapi::Node;

fn write(node: Node, value: &str) -> Write {
    Write { node, value: String::from(value) }
}

fn number(n: u32) -> Number {
    Number { number: Some(n) }
}

const NONE: Number = Number { number: None };

#[test]
fn switches_are_one_write() {
    assert_eq!(Command::On.execute(), Ok(Step::Write(write(Node::SysPower, "1"))));
    assert_eq!(Command::Off.execute(), Ok(Step::Write(write(Node::SysPower, "0"))));
    assert_eq!(Command::Mute.execute(), Ok(Step::Write(write(Node::SysAudioMute, "1"))));
    assert_eq!(Command::UnMute.execute(), Ok(Step::Write(write(Node::SysAudioMute, "0"))));
    assert_eq!(power(true), write(Node::SysPower, "1"));
    assert_eq!(power(false), write(Node::SysPower, "0"));
    assert_eq!(mute(true), write(Node::SysAudioMute, "1"));
    assert_eq!(mute(false), write(Node::SysAudioMute, "0"));
}

#[test]
fn volume_set_needs_its_number() {
    assert_eq!(
        Command::Volume(Volume::SetTo(number(12))).execute(),
        Ok(Step::Write(write(Node::SysAudioVolume, "12")))
    );
    assert_eq!(Command::Volume(Volume::SetTo(NONE)).execute(), Err(Error::InvalidCommand));
}

#[test]
fn volume_up_and_down_read_the_volume_first() {
    assert_eq!(Command::Volume(Volume::Up(number(2))).execute(), Ok(Step::ReadVolume));
    assert_eq!(Command::Volume(Volume::Up(NONE)).execute(), Ok(Step::ReadVolume));
    assert_eq!(Command::Volume(Volume::Down(number(2))).execute(), Ok(Step::ReadVolume));
    assert_eq!(Command::Volume(Volume::Down(NONE)).execute(), Ok(Step::ReadVolume));
}

#[test]
fn volume_up_and_down_go_on_with_the_new_volume() {
    let up = Command::Volume(Volume::Up(number(2)));
    let down = Command::Volume(Volume::Down(number(2)));
    assert_eq!(up.with_volume(10), Ok(write(Node::SysAudioVolume, "12")));
    assert_eq!(down.with_volume(10), Ok(write(Node::SysAudioVolume, "8")));
    assert_eq!(Command::Volume(Volume::Up(NONE)).with_volume(10), Ok(write(Node::SysAudioVolume, "11")));
    assert_eq!(Command::Volume(Volume::Down(NONE)).with_volume(10), Ok(write(Node::SysAudioVolume, "9")));
    assert_eq!(down.with_volume(2), Ok(write(Node::SysAudioVolume, "0")));
    assert_eq!(down.with_volume(1), Err(Error::InvalidCommand));
    assert_eq!(Command::Volume(Volume::Down(NONE)).with_volume(0), Err(Error::InvalidCommand));
    assert_eq!(up.with_volume(4294967293), Ok(write(Node::SysAudioVolume, "4294967295")));
    assert_eq!(up.with_volume(4294967294), Err(Error::InvalidCommand));
    assert_eq!(Command::Volume(Volume::SetTo(number(5))).with_volume(10), Ok(write(Node::SysAudioVolume, "5")));
    assert_eq!(Command::On.with_volume(10), Err(Error::InvalidCommand));
}

#[test]
fn favorite_switches_navigation_on_first() {
    assert_eq!(
        Command::Favorite(number(3)).execute(),
        Ok(Step::Enable(write(Node::NavState, "1")))
    );
    assert_eq!(Command::Favorite(NONE).execute(), Ok(Step::Enable(write(Node::NavState, "1"))));
    assert_eq!(Command::Favorite(number(3)).select(), Ok(write(Node::NavActionSelectPreset, "3")));
    assert_eq!(Command::Favorite(NONE).select(), Err(Error::InvalidCommand));
    assert_eq!(Command::Mute.select(), Err(Error::InvalidCommand));
}

#[test]
fn volume_is_read_from_a_u8() {
    assert_eq!(get_volume(Value::U8(12)), Ok(12));
    assert_eq!(get_volume(Value::U32(12)), Err(Error::Internal));
    assert_eq!(get_volume(Value::Text(String::from("12"))), Err(Error::Internal));
}

#[test]
fn cli_errors_map_from_client_errors() {
    assert_eq!(Error::from(fsapi::Error::WrongPin), Error::InvalidPin);
    assert_eq!(Error::from(fsapi::Error::Timeout), Error::Internal);
    assert_eq!(Error::from(fsapi::Error::Fail), Error::Internal);
    assert_eq!(Error::from(fsapi::Error::InvalidStatus), Error::Internal);
    assert_eq!(Error::from(fsapi::Error::InvalidData), Error::Internal);
    assert_eq!(Error::from(fsapi::Error::InternalError), Error::Internal);
}

#[test]
fn cli_errors_describe_themselves() {
    assert_eq!(
        Error::NoConfig(String::from("No config dir found")).to_string(),
        "No config file was found: No config dir found"
    );
    assert_eq!(Error::InvalidConfig(String::from("bad")).to_string(), "Invalid config file: bad");
    assert_eq!(Error::InvalidPin.to_string(), "Provided pin is invalid");
    assert_eq!(Error::Internal.to_string(), "Internal error");
    assert_eq!(Error::InvalidCommand.to_string(), "Invalid command provided");
}

#[test]
fn config_holds_the_connection() {
    let config = Config { connection: Connection { host: String::from("radio"), pin: 1234 } };
    assert_eq!(config.connection.host, "radio");
    assert_eq!(config.connection.pin, 1234);
}
