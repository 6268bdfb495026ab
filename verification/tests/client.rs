use fsapi::client::{Session, MAX_ITEMS};
use fsapi::error::{InternalError, TransportError};
use fsapi::value::{Data, Field, Item, Notification, Response, ResponseStatus, SessionID, Value};
use fsapi::{Error, FsApi, Node};

fn reply(status: &str, payload: &str) -> Result<String, TransportError> {
    Ok(format!("<fsapiResponse><status>{}</status>{}</fsapiResponse>", status, payload))
}

fn response(status: ResponseStatus, data: Option<Data>) -> Response {
    Response { status, data }
}

const VALUE: &str = "<value><u8>7</u8></value>";
const SESSION: &str = "<sessionId>42</sessionId>";
const ITEMS: &str = "<item key=\"1\"><field name=\"name\"><c8_array>Radio 1</c8_array></field></item><listend/>";
const NOTIFY: &str = "<notify node=\"netremote.sys.audio.volume\"><value><u8>9</u8></value></notify>";

fn one_item() -> Vec<Item> {
    vec![Item {
        key: 1,
        fields: vec![Field { name: String::from("name"), value: Value::Text(String::from("Radio 1")) }],
    }]
}

fn one_notification() -> Vec<Notification> {
    vec![Notification { node: Node::SysAudioVolume, value: Value::U8(9) }]
}

#[test]
fn urls_are_spelled_as_the_device_expects() {
    assert_eq!(
        FsApi::get_url(Node::SysAudioVolume, "192.168.1.5", "1234"),
        "http://192.168.1.5/fsapi/GET/netremote.sys.audio.volume?pin=1234"
    );
    assert_eq!(
        FsApi::set_url(Node::SysAudioVolume, "12", "radio.local", "1234"),
        "http://radio.local/fsapi/SET/netremote.sys.audio.volume?pin=1234&value=12"
    );
    assert_eq!(
        FsApi::get_item_list_url(Node::NavPresets, None, "radio", "1234"),
        "http://radio/fsapi/LIST_GET_NEXT/netremote.nav.presets/-1?pin=1234&maxItems=65536"
    );
    assert_eq!(
        FsApi::get_item_list_url(Node::NavList, Some(SessionID(77)), "radio", "0000"),
        "http://radio/fsapi/LIST_GET_NEXT/netremote.nav.list/-1?pin=0000&SID=77&maxItems=65536"
    );
    assert_eq!(
        FsApi::get_notifications_url(SessionID(4294967295), "radio", "1234"),
        "http://radio/fsapi/GET_NOTIFIES?pin=1234&sid=4294967295"
    );
    assert_eq!(FsApi::create_session_url("radio", "1234"), "http://radio/fsapi/CREATE_SESSION?pin=1234");
    assert_eq!(
        FsApi::delete_session_url(SessionID(0), "radio", "1234"),
        "http://radio/fsapi/DELETE_SESSION?pin=1234&sid=0"
    );
    assert_eq!(MAX_ITEMS, 65536);
}

#[test]
fn urls_take_host_and_pin_as_they_are() {
    assert_eq!(FsApi::get_url(Node::SysPower, "", ""), "http:///fsapi/GET/netremote.sys.power?pin=");
    assert_eq!(
        FsApi::set_url(Node::SysPower, "a b", "h\u{f6}st", "p&n"),
        "http://h\u{f6}st/fsapi/SET/netremote.sys.power?pin=p&n&value=a b"
    );
}

#[test]
fn get_returns_the_value() {
    assert_eq!(FsApi::get(reply("FS_OK", VALUE)), Ok(Value::U8(7)));
}

#[test]
fn get_refuses_other_statuses_and_other_data() {
    assert_eq!(FsApi::get(reply("FS_FAIL", "")), Err(Error::InvalidStatus));
    assert_eq!(FsApi::get(reply("FS_NODE_BLOCKED", VALUE)), Err(Error::InvalidStatus));
    assert_eq!(FsApi::get(reply("FS_TIMEOUT", "")), Err(Error::InvalidStatus));
    assert_eq!(FsApi::get(reply("FS_OK", "")), Err(Error::InvalidData));
    assert_eq!(FsApi::get(reply("FS_OK", SESSION)), Err(Error::InvalidData));
    assert_eq!(FsApi::get(reply("FS_OK", ITEMS)), Err(Error::InvalidData));
    assert_eq!(FsApi::get(reply("FS_OK", NOTIFY)), Err(Error::InvalidData));
}

#[test]
fn undecodable_reply_is_an_internal_error() {
    assert_eq!(FsApi::get(reply("FS_BOGUS", "")), Err(Error::InternalError));
    assert_eq!(FsApi::get(reply("FS_OK", "<value><u8>x</u8></value>")), Err(Error::InternalError));
    assert_eq!(FsApi::get(Ok(String::from("not xml"))), Err(Error::InternalError));
    assert_eq!(FsApi::set(Ok(String::new())), Err(Error::InternalError));
    assert_eq!(FsApi::get_item_list(reply("FS_OK", "<item>")), Err(Error::InternalError));
    assert_eq!(FsApi::get_notifications(reply("FS_OK", "<notify node=\"x\">")), Err(Error::InternalError));
    assert_eq!(FsApi::create_session(reply("FS_OK", "<sessionId>x</sessionId>")), Err(Error::InternalError));
    assert_eq!(FsApi::delete_session(reply("FS_OK", "<bogus>")), Err(Error::InternalError));
}

#[test]
fn transport_failures_map_to_errors() {
    assert_eq!(FsApi::get(Err(TransportError::Status(403))), Err(Error::WrongPin));
    assert_eq!(FsApi::get(Err(TransportError::Status(404))), Err(Error::InternalError));
    assert_eq!(FsApi::get(Err(TransportError::Status(500))), Err(Error::InternalError));
    assert_eq!(FsApi::get(Err(TransportError::Timeout)), Err(Error::Timeout));
    assert_eq!(FsApi::get(Err(TransportError::Other)), Err(Error::InternalError));
    assert_eq!(FsApi::set(Err(TransportError::Status(403))), Err(Error::WrongPin));
    assert_eq!(FsApi::get_item_list(Err(TransportError::Timeout)), Err(Error::Timeout));
    assert_eq!(FsApi::get_notifications(Err(TransportError::Timeout)), Err(Error::Timeout));
    assert_eq!(FsApi::create_session(Err(TransportError::Status(403))), Err(Error::WrongPin));
    assert_eq!(FsApi::delete_session(Err(TransportError::Other)), Err(Error::InternalError));
    assert_eq!(FsApi::receive(Err(TransportError::Status(403))), Err(Error::WrongPin));
}

#[test]
fn set_succeeds_without_data() {
    assert_eq!(FsApi::set(reply("FS_OK", "")), Ok(()));
    assert_eq!(FsApi::set(reply("FS_OK", VALUE)), Err(Error::InvalidData));
    assert_eq!(FsApi::set(reply("FS_FAIL", "")), Err(Error::InvalidStatus));
    assert_eq!(FsApi::set(reply("FS_PACKET_BAD", "")), Err(Error::InvalidStatus));
    assert_eq!(FsApi::set(reply("FS_NODE_DOES_NOT_EXIST", "")), Err(Error::InvalidStatus));
}

#[test]
fn get_item_list_returns_the_items() {
    assert_eq!(FsApi::get_item_list(reply("FS_OK", ITEMS)), Ok(one_item()));
    assert_eq!(FsApi::get_item_list(reply("FS_OK", "<listend/>")), Ok(vec![]));
}

#[test]
fn get_item_list_tells_fail_from_other_statuses() {
    assert_eq!(FsApi::get_item_list(reply("FS_FAIL", "")), Err(Error::Fail));
    assert_eq!(FsApi::get_item_list(reply("FS_LIST_END", "")), Err(Error::InvalidStatus));
    assert_eq!(FsApi::get_item_list(reply("FS_TIMEOUT", "")), Err(Error::InvalidStatus));
    assert_eq!(FsApi::get_item_list(reply("FS_OK", "")), Err(Error::InvalidData));
    assert_eq!(FsApi::get_item_list(reply("FS_OK", VALUE)), Err(Error::InvalidData));
}

#[test]
fn get_notifications_returns_the_batch() {
    assert_eq!(FsApi::get_notifications(reply("FS_OK", NOTIFY)), Ok(Some(one_notification())));
}

#[test]
fn get_notifications_on_timeout_is_none() {
    assert_eq!(FsApi::get_notifications(reply("FS_TIMEOUT", "")), Ok(None));
    assert_eq!(
        FsApi::get_notifications(Ok(String::from("<fsapiResponse><status>FS_TIMEOUT</status>"))),
        Ok(None)
    );
    assert_eq!(
        FsApi::get_notifications_from(response(ResponseStatus::Timeout, None)),
        Ok(None)
    );
}

#[test]
fn get_notifications_refuses_other_statuses_and_other_data() {
    assert_eq!(FsApi::get_notifications(reply("FS_FAIL", "")), Err(Error::InvalidStatus));
    assert_eq!(FsApi::get_notifications(reply("FS_LIST_END", "")), Err(Error::InvalidStatus));
    assert_eq!(FsApi::get_notifications(reply("FS_OK", "")), Err(Error::InvalidData));
    assert_eq!(FsApi::get_notifications(reply("FS_OK", VALUE)), Err(Error::InvalidData));
}

#[test]
fn create_session_returns_the_session() {
    assert_eq!(FsApi::create_session(reply("FS_OK", SESSION)), Ok(SessionID(42)));
    assert_eq!(FsApi::create_session(reply("FS_OK", "")), Err(Error::InvalidData));
    assert_eq!(FsApi::create_session(reply("FS_OK", VALUE)), Err(Error::InvalidData));
    assert_eq!(FsApi::create_session(reply("FS_FAIL", "")), Err(Error::InvalidStatus));
}

#[test]
fn delete_session_succeeds_without_data() {
    assert_eq!(FsApi::delete_session(reply("FS_OK", "")), Ok(()));
    assert_eq!(FsApi::delete_session(reply("FS_OK", SESSION)), Err(Error::InvalidData));
    assert_eq!(FsApi::delete_session(reply("FS_FAIL", "")), Err(Error::InvalidStatus));
}

#[test]
fn verbs_read_a_decoded_response() {
    assert_eq!(
        FsApi::get_from(response(ResponseStatus::Okay, Some(Data::Value(Value::S16(-1))))),
        Ok(Value::S16(-1))
    );
    assert_eq!(
        FsApi::get_from(response(ResponseStatus::Fail, Some(Data::Value(Value::S16(-1))))),
        Err(Error::InvalidStatus)
    );
    assert_eq!(FsApi::done_from(response(ResponseStatus::Okay, None)), Ok(()));
    assert_eq!(
        FsApi::get_item_list_from(response(ResponseStatus::Okay, Some(Data::Items(one_item())))),
        Ok(one_item())
    );
    assert_eq!(
        FsApi::get_item_list_from(response(ResponseStatus::Fail, Some(Data::Items(one_item())))),
        Err(Error::Fail)
    );
    assert_eq!(
        FsApi::get_notifications_from(response(
            ResponseStatus::Okay,
            Some(Data::Notify(one_notification()))
        )),
        Ok(Some(one_notification()))
    );
    assert_eq!(
        FsApi::get_notifications_from(response(
            ResponseStatus::Timeout,
            Some(Data::Notify(one_notification()))
        )),
        Ok(None)
    );
    assert_eq!(
        FsApi::create_session_from(response(ResponseStatus::Okay, Some(Data::SessionID(SessionID(5))))),
        Ok(SessionID(5))
    );
}

#[test]
fn receive_decodes_the_frame() {
    assert_eq!(
        FsApi::receive(reply("FS_OK", VALUE)),
        Ok(response(ResponseStatus::Okay, Some(Data::Value(Value::U8(7)))))
    );
    assert_eq!(FsApi::receive(reply("FS_LIST_END", "")), Ok(response(ResponseStatus::ListEnd, None)));
    assert_eq!(FsApi::receive(Ok(String::from("<a>"))), Err(Error::InternalError));
}

#[test]
fn session_follows_create_and_delete() {
    let mut session = Session::new();
    assert_eq!(session, Session::NoSession);
    assert_eq!(session.id(), None);
    assert_eq!(session.create(reply("FS_OK", SESSION)), Ok(SessionID(42)));
    assert_eq!(session, Session::Active(SessionID(42)));
    assert_eq!(session.id(), Some(SessionID(42)));
    assert_eq!(session.create(reply("FS_OK", "<sessionId>43</sessionId>")), Ok(SessionID(43)));
    assert_eq!(session, Session::Active(SessionID(43)));
    assert_eq!(session.delete(reply("FS_OK", "")), Ok(()));
    assert_eq!(session, Session::NoSession);
}

#[test]
fn session_stays_where_a_request_fails() {
    let mut session = Session::new();
    assert_eq!(session.create(reply("FS_FAIL", "")), Err(Error::InvalidStatus));
    assert_eq!(session, Session::NoSession);
    assert_eq!(session.create(Err(TransportError::Status(403))), Err(Error::WrongPin));
    assert_eq!(session, Session::NoSession);
    assert_eq!(session.create(reply("FS_OK", SESSION)), Ok(SessionID(42)));
    assert_eq!(session.create(reply("FS_OK", VALUE)), Err(Error::InvalidData));
    assert_eq!(session, Session::Active(SessionID(42)));
    assert_eq!(session.delete(reply("FS_FAIL", "")), Err(Error::InvalidStatus));
    assert_eq!(session, Session::Active(SessionID(42)));
    assert_eq!(session.delete(Err(TransportError::Timeout)), Err(Error::Timeout));
    assert_eq!(session, Session::Active(SessionID(42)));
}

#[test]
fn errors_describe_themselves() {
    assert_eq!(Error::WrongPin.to_string(), "Looks like you got the pin wrong");
    assert_eq!(Error::InvalidStatus.to_string(), "An invalid status type was returned");
    assert_eq!(Error::Fail.to_string(), "That action is not possible (I think)");
    assert_eq!(Error::InvalidData.to_string(), "An invalid data type was returned");
    assert_eq!(Error::InternalError.to_string(), "Oops something went wrong");
    assert_eq!(Error::Timeout.to_string(), "Server took to long to respond");
}

#[test]
fn errors_convert_into_one_another() {
    for failure in [
        InternalError::MalformedValue,
        InternalError::UnknownValueType,
        InternalError::Number,
        InternalError::Utf8,
        InternalError::Xml,
        InternalError::SessionId,
        InternalError::Response,
        InternalError::UnknownStatus,
        InternalError::UnknownData,
        InternalError::Item,
        InternalError::Field,
        InternalError::Notify,
        InternalError::UnknownNode,
        InternalError::Generic(String::from("x")),
        InternalError::Empty,
    ] {
        assert_eq!(Error::from(failure), Error::InternalError);
    }
    for error in [Error::WrongPin, Error::InvalidStatus, Error::Fail, Error::InvalidData, Error::InternalError, Error::Timeout] {
        assert_eq!(InternalError::from(error), InternalError::Empty);
    }
    assert_eq!(Error::from(TransportError::Status(403)), Error::WrongPin);
    assert_eq!(Error::from(TransportError::Status(402)), Error::InternalError);
    assert_eq!(Error::from(TransportError::Timeout), Error::Timeout);
    assert_eq!(Error::from(TransportError::Other), Error::InternalError);
}

#[test]
fn internal_error_new_is_generic() {
    assert_eq!(
        InternalError::new(String::from("Unknown node: x")),
        InternalError::Generic(String::from("Unknown node: x"))
    );
}

#[test]
fn values_and_sessions_write_themselves() {
    assert_eq!(Value::Text(String::from("Radio 1")).to_string(), "Radio 1");
    assert_eq!(Value::U8(255).to_string(), "255");
    assert_eq!(Value::S16(-32768).to_string(), "-32768");
    assert_eq!(Value::U32(4294967295).to_string(), "4294967295");
    assert_eq!(Value::Array(String::from("00ff")).to_string(), "00ff");
    assert_eq!(SessionID(1569137182).to_string(), "1569137182");
}

#[test]
fn internal_errors_describe_themselves() {
    assert_eq!(InternalError::MalformedValue.to_string(), "Error value: Incorrect value format");
    assert_eq!(InternalError::UnknownValueType.to_string(), "Error value: Unknown option");
    assert_eq!(InternalError::Number.to_string(), "Error: Not a number of the width asked for");
    assert_eq!(InternalError::Utf8.to_string(), "Error: Invalid UTF-8");
    assert_eq!(InternalError::Xml.to_string(), "Error: Malformed XML");
    assert_eq!(InternalError::SessionId.to_string(), "Error session id: Incorrect value format");
    assert_eq!(InternalError::Response.to_string(), "Error response: Incorrect response format");
    assert_eq!(InternalError::UnknownStatus.to_string(), "Error response: Unknown status");
    assert_eq!(InternalError::UnknownData.to_string(), "Error response: Unknown data type");
    assert_eq!(InternalError::Item.to_string(), "Error item: Invalid item format");
    assert_eq!(InternalError::Field.to_string(), "Error field: Unexpected event");
    assert_eq!(InternalError::Notify.to_string(), "Error notify: Invalid notify format");
    assert_eq!(InternalError::UnknownNode.to_string(), "Error notify: Unknown node");
    assert_eq!(InternalError::Generic(String::from("what")).to_string(), "Error: what");
    assert_eq!(InternalError::Empty.to_string(), "Error");
}
