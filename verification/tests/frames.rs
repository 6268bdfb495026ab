use fsapi::error::InternalError;
use fsapi::value::{Data, Field, Item, Notification, Response, ResponseStatus, SessionID, Value};
use fsapi::xml::{tokenize, XmlEvent};
use fsapi::Node;

fn frame(status: &str, payload: &str) -> String {
    format!("<fsapiResponse><status>{}</status>{}</fsapiResponse>", status, payload)
}

fn ok(payload: &str) -> Result<Response, InternalError> {
    Response::from_str(&frame("FS_OK", payload))
}

fn data(payload: &str) -> Option<Data> {
    let response = ok(payload).unwrap();
    assert_eq!(response.status, ResponseStatus::Okay);
    response.data
}

fn text(s: &str) -> Value {
    Value::Text(String::from(s))
}

fn field(name: &str, value: Value) -> Field {
    Field { name: String::from(name), value }
}

#[test]
fn value_frame_decodes_to_u8() {
    let frame = "<fsapiResponse><status>FS_OK</status><value><u8>7</u8></value></fsapiResponse>";
    let response = Response::from_str(frame).unwrap();
    assert_eq!(response.status, ResponseStatus::Okay);
    assert_eq!(response.data, Some(Data::Value(Value::U8(7))));
}

#[test]
fn list_frame_decodes_to_one_item() {
    let frame = "<fsapiResponse><status>FS_OK</status><item key=\"1\"><field name=\"name\"><c8_array>Radio 1</c8_array></field></item><listend/></fsapiResponse>";
    let response = Response::from_str(frame).unwrap();
    assert_eq!(response.status, ResponseStatus::Okay);
    assert_eq!(
        response.data,
        Some(Data::Items(vec![Item { key: 1, fields: vec![field("name", text("Radio 1"))] }]))
    );
}

#[test]
fn timeout_frame_has_no_data() {
    let frame = "<fsapiResponse><status>FS_TIMEOUT</status></fsapiResponse>";
    let response = Response::from_str(frame).unwrap();
    assert_eq!(response, Response { status: ResponseStatus::Timeout, data: None });
}

#[test]
fn unknown_status_fails() {
    let frame = "<fsapiResponse><status>FS_BOGUS</status></fsapiResponse>";
    assert_eq!(Response::from_str(frame), Err(InternalError::UnknownStatus));
}

#[test]
fn every_status_is_known_by_its_text() {
    let cases = [
        ("FS_OK", ResponseStatus::Okay),
        ("FS_FAIL", ResponseStatus::Fail),
        ("FS_PACKET_BAD", ResponseStatus::PacketBad),
        ("FS_NODE_BLOCKED", ResponseStatus::NodeBlocked),
        ("FS_NODE_DOES_NOT_EXIST", ResponseStatus::NodeDoesNotExist),
        ("FS_TIMEOUT", ResponseStatus::Timeout),
        ("FS_LIST_END", ResponseStatus::ListEnd),
    ];
    for (name, status) in cases {
        assert_eq!(ResponseStatus::parse(name), Some(status));
        assert_eq!(Response::from_str(&frame(name, "")), Ok(Response { status, data: None }));
    }
    assert_eq!(ResponseStatus::parse("fs_ok"), None);
    assert_eq!(ResponseStatus::parse("FS_OK "), None);
    assert_eq!(ResponseStatus::parse(""), None);
}

#[test]
fn status_other_than_ok_hides_what_follows() {
    let statuses = [
        ("FS_FAIL", ResponseStatus::Fail),
        ("FS_PACKET_BAD", ResponseStatus::PacketBad),
        ("FS_NODE_BLOCKED", ResponseStatus::NodeBlocked),
        ("FS_NODE_DOES_NOT_EXIST", ResponseStatus::NodeDoesNotExist),
        ("FS_TIMEOUT", ResponseStatus::Timeout),
        ("FS_LIST_END", ResponseStatus::ListEnd),
    ];
    let tails = [
        "",
        "</fsapiResponse>",
        "<value><u8>7</u8></value></fsapiResponse>",
        "<value><u8>not a number</u8></value></fsapiResponse>",
        "<bogus/>",
        "</wrong>",
        "<unclosed",
        "<item key=\"x\">",
    ];
    for (name, status) in statuses {
        for tail in tails {
            let frame = format!("<fsapiResponse><status>{}</status>{}", name, tail);
            assert_eq!(Response::from_str(&frame), Ok(Response { status, data: None }));
        }
    }
}

#[test]
fn ok_without_payload_has_no_data() {
    assert_eq!(data(""), None);
}

#[test]
fn value_variant_follows_the_tag() {
    assert_eq!(data("<value><c8_array>12</c8_array></value>"), Some(Data::Value(text("12"))));
    assert_eq!(data("<value><u8>12</u8></value>"), Some(Data::Value(Value::U8(12))));
    assert_eq!(data("<value><s16>12</s16></value>"), Some(Data::Value(Value::S16(12))));
    assert_eq!(data("<value><u32>12</u32></value>"), Some(Data::Value(Value::U32(12))));
    assert_eq!(
        data("<value><array>12</array></value>"),
        Some(Data::Value(Value::Array(String::from("12"))))
    );
}

#[test]
fn numbers_at_the_edges_of_their_width() {
    assert_eq!(data("<value><u8>0</u8></value>"), Some(Data::Value(Value::U8(0))));
    assert_eq!(data("<value><u8>255</u8></value>"), Some(Data::Value(Value::U8(255))));
    assert_eq!(ok("<value><u8>256</u8></value>"), Err(InternalError::Number));
    assert_eq!(ok("<value><u8>-1</u8></value>"), Err(InternalError::Number));
    assert_eq!(data("<value><s16>-32768</s16></value>"), Some(Data::Value(Value::S16(-32768))));
    assert_eq!(data("<value><s16>32767</s16></value>"), Some(Data::Value(Value::S16(32767))));
    assert_eq!(ok("<value><s16>32768</s16></value>"), Err(InternalError::Number));
    assert_eq!(ok("<value><s16>-32769</s16></value>"), Err(InternalError::Number));
    assert_eq!(
        data("<value><u32>4294967295</u32></value>"),
        Some(Data::Value(Value::U32(4294967295)))
    );
    assert_eq!(ok("<value><u32>4294967296</u32></value>"), Err(InternalError::Number));
}

#[test]
fn numeric_tag_rejects_other_content() {
    assert_eq!(ok("<value><u8>seven</u8></value>"), Err(InternalError::Number));
    assert_eq!(ok("<value><u8></u8></value>"), Err(InternalError::Number));
    assert_eq!(ok("<value><u8>7 7</u8></value>"), Err(InternalError::Number));
    assert_eq!(ok("<value><u8>0x7</u8></value>"), Err(InternalError::Number));
    assert_eq!(ok("<value><s16>1.5</s16></value>"), Err(InternalError::Number));
    assert_eq!(ok("<value><u32>Radio 1</u32></value>"), Err(InternalError::Number));
    assert_eq!(ok("<value><s16>-</s16></value>"), Err(InternalError::Number));
    assert_eq!(ok("<value><u32>+</u32></value>"), Err(InternalError::Number));
}

#[test]
fn number_may_carry_a_plus_sign_and_blanks_around_it() {
    assert_eq!(data("<value><u8>+7</u8></value>"), Some(Data::Value(Value::U8(7))));
    assert_eq!(data("<value><u8> 7 </u8></value>"), Some(Data::Value(Value::U8(7))));
    assert_eq!(data("<value><s16>+007</s16></value>"), Some(Data::Value(Value::S16(7))));
    assert_eq!(data("<value><s16>-0</s16></value>"), Some(Data::Value(Value::S16(0))));
}

#[test]
fn text_is_unescaped_and_may_be_empty() {
    assert_eq!(
        data("<value><c8_array>Tom &amp; Jerry &lt;live&gt;</c8_array></value>"),
        Some(Data::Value(text("Tom & Jerry <live>")))
    );
    assert_eq!(data("<value><c8_array></c8_array></value>"), Some(Data::Value(text(""))));
    assert_eq!(
        data("<value><array>0a1b2c</array></value>"),
        Some(Data::Value(Value::Array(String::from("0a1b2c"))))
    );
}

#[test]
fn value_of_unknown_type_fails() {
    assert_eq!(ok("<value><u16>7</u16></value>"), Err(InternalError::UnknownValueType));
    assert_eq!(ok("<value><U8>7</U8></value>"), Err(InternalError::UnknownValueType));
}

#[test]
fn value_without_element_fails() {
    assert_eq!(ok("<value>7</value>"), Err(InternalError::MalformedValue));
    assert_eq!(ok("<value></value>"), Err(InternalError::MalformedValue));
    assert_eq!(ok("<value><u8/></value>"), Err(InternalError::MalformedValue));
}

#[test]
fn value_with_an_element_inside_its_text_fails() {
    assert_eq!(ok("<value><u8><b>7</b></u8></value>"), Err(InternalError::Xml));
}

#[test]
fn rest_of_a_value_element_is_passed_over() {
    assert_eq!(
        data("<value><c8_array>a<!-- note --><b>bold</b>c</c8_array></value>"),
        Some(Data::Value(text("a")))
    );
}

#[test]
fn session_frame_decodes_to_its_handle() {
    assert_eq!(
        data("<sessionId>1569137182</sessionId>"),
        Some(Data::SessionID(SessionID(1569137182)))
    );
    assert_eq!(ok("<sessionId>abc</sessionId>"), Err(InternalError::Number));
    assert_eq!(ok("<sessionId>4294967296</sessionId>"), Err(InternalError::Number));
    assert_eq!(ok("<sessionId></sessionId>"), Err(InternalError::SessionId));
    assert_eq!(ok("<sessionId><u32>1</u32></sessionId>"), Err(InternalError::SessionId));
}

#[test]
fn empty_list_decodes_to_no_items() {
    assert_eq!(data("<listend/>"), Some(Data::Items(vec![])));
}

#[test]
fn item_without_fields_is_an_item() {
    assert_eq!(
        data("<item key=\"4\"></item><listend/>"),
        Some(Data::Items(vec![Item { key: 4, fields: vec![] }]))
    );
}

#[test]
fn every_item_has_the_key_of_its_own_start_tag() {
    let payload = "<item key=\"3\"><field name=\"name\"><c8_array>One</c8_array></field><field name=\"type\"><u8>1</u8></field></item>\
        <item key=\"7\"><field name=\"name\"><c8_array>Two</c8_array></field></item>\
        <item key=\"12\"><field name=\"name\"><c8_array>Three</c8_array></field><field name=\"level\"><s16>-3</s16></field><field name=\"id\"><u32>70000</u32></field></item>\
        <listend/>";
    assert_eq!(
        data(payload),
        Some(Data::Items(vec![
            Item { key: 3, fields: vec![field("name", text("One")), field("type", Value::U8(1))] },
            Item { key: 7, fields: vec![field("name", text("Two"))] },
            Item {
                key: 12,
                fields: vec![
                    field("name", text("Three")),
                    field("level", Value::S16(-3)),
                    field("id", Value::U32(70000)),
                ],
            },
        ]))
    );
}

#[test]
fn many_items_keep_their_keys_in_order() {
    let mut payload = String::new();
    let mut expected = Vec::new();
    for key in 0..200u32 {
        let key = key * 3 + 1;
        payload.push_str(&format!(
            "<item key=\"{}\"><field name=\"name\"><c8_array>Station {}</c8_array></field></item>",
            key, key
        ));
        expected.push(Item { key, fields: vec![field("name", text(&format!("Station {}", key)))] });
    }
    payload.push_str("<listend/>");
    assert_eq!(data(&payload), Some(Data::Items(expected)));
}

#[test]
fn list_with_a_bad_key_fails() {
    let rest = "<field name=\"name\"><c8_array>One</c8_array></field></item><listend/>";
    assert_eq!(ok(&format!("<item>{}", rest)), Err(InternalError::Item));
    assert_eq!(ok(&format!("<item key=\"one\">{}", rest)), Err(InternalError::Number));
    assert_eq!(ok(&format!("<item key=\"4294967296\">{}", rest)), Err(InternalError::Number));
    assert_eq!(ok(&format!("<item key=\"-1\">{}", rest)), Err(InternalError::Number));
    assert_eq!(ok(&format!("<item key=1>{}", rest)), Err(InternalError::Xml));
    let second = "<item key=\"1\"></item><item key=\"x\"></item><listend/>";
    assert_eq!(ok(second), Err(InternalError::Number));
    assert_eq!(ok("<item key=\"1\"></item><item></item><listend/>"), Err(InternalError::Item));
}

#[test]
fn list_that_goes_on_with_something_else_fails() {
    assert_eq!(ok("<item key=\"1\"></item>"), Err(InternalError::Item));
    assert_eq!(ok("<item key=\"1\"></item><end/>"), Err(InternalError::Item));
    assert_eq!(ok("<item key=\"1\"></item>text<listend/>"), Err(InternalError::Item));
    assert_eq!(ok("<item key=\"1\"></item><record key=\"2\"></record><listend/>"), Err(InternalError::Item));
}

#[test]
fn record_that_goes_on_with_something_else_fails() {
    assert_eq!(ok("<item key=\"1\"><name>x</name></item><listend/>"), Err(InternalError::Field));
    assert_eq!(ok("<item key=\"1\">text</item><listend/>"), Err(InternalError::Field));
    assert_eq!(ok("<item key=\"1\"><field/></item><listend/>"), Err(InternalError::Field));
    assert_eq!(
        ok("<item key=\"1\"><field><c8_array>x</c8_array></field></item><listend/>"),
        Err(InternalError::Item)
    );
    assert_eq!(
        ok("<item key=\"1\"><field name=\"n\"><u8>x</u8></field></item><listend/>"),
        Err(InternalError::Number)
    );
    assert_eq!(
        ok("<item key=\"1\"><field name=\"n\">x</field></item><listend/>"),
        Err(InternalError::MalformedValue)
    );
}

#[test]
fn batch_decodes_every_notification_with_its_own_node() {
    let payload = "<notify node=\"netremote.sys.audio.volume\"><value><u8>11</u8></value></notify>\
        <notify node=\"netremote.play.info.name\"><value><c8_array>Radio 1</c8_array></value></notify>\
        <notify node=\"netremote.sys.audio.eqcustom.param0\"><value><s16>-2</s16></value></notify>";
    assert_eq!(
        data(payload),
        Some(Data::Notify(vec![
            Notification { node: Node::SysAudioVolume, value: Value::U8(11) },
            Notification { node: Node::PlayInfoName, value: text("Radio 1") },
            Notification { node: Node::SysAudioEqCustomParam0, value: Value::S16(-2) },
        ]))
    );
}

#[test]
fn batch_of_one_notification() {
    assert_eq!(
        data("<notify node=\"netremote.sys.power\"><value><u8>1</u8></value></notify>"),
        Some(Data::Notify(vec![Notification { node: Node::SysPower, value: Value::U8(1) }]))
    );
}

#[test]
fn batch_is_not_read_past_the_end_of_the_frame() {
    let batch = "<notify node=\"netremote.sys.power\"><value><u8>1</u8></value></notify>";
    let expected =
        Some(Data::Notify(vec![Notification { node: Node::SysPower, value: Value::U8(1) }]));
    for tail in ["", "<notify node=\"bogus\">", "</wrong>", "<unclosed", "trailing text"] {
        let frame = format!("<fsapiResponse><status>FS_OK</status>{}</fsapiResponse>{}", batch, tail);
        let response = Response::from_str(&frame).unwrap();
        assert_eq!(response.data, expected);
    }
}

#[test]
fn batch_with_an_unknown_node_fails() {
    assert_eq!(
        ok("<notify node=\"netremote.sys.bogus\"><value><u8>1</u8></value></notify>"),
        Err(InternalError::UnknownNode)
    );
    let second = "<notify node=\"netremote.sys.power\"><value><u8>1</u8></value></notify>\
        <notify node=\"netRemote.sys.power\"><value><u8>1</u8></value></notify>";
    assert_eq!(ok(second), Err(InternalError::UnknownNode));
}

#[test]
fn batch_that_goes_on_with_something_else_fails() {
    let one = "<notify node=\"netremote.sys.power\"><value><u8>1</u8></value></notify>";
    assert_eq!(ok(&format!("{}<listend/>", one)), Err(InternalError::Notify));
    assert_eq!(ok(&format!("{}text", one)), Err(InternalError::Notify));
    assert_eq!(ok(&format!("{}<notify><value><u8>1</u8></value></notify>", one)), Err(InternalError::Notify));
    assert_eq!(ok(&format!("{}<other node=\"netremote.sys.power\"><value><u8>1</u8></value></other>", one)), Err(InternalError::Notify));
    assert_eq!(ok("<notify><value><u8>1</u8></value></notify>"), Err(InternalError::Notify));
    assert_eq!(
        ok("<notify node=\"netremote.sys.power\"><value><u8>x</u8></value></notify>"),
        Err(InternalError::Number)
    );
}

#[test]
fn batch_in_a_frame_of_another_name_fails() {
    let frame = "<response><status>FS_OK</status><notify node=\"netremote.sys.power\"><value><u8>1</u8></value></notify></response>";
    assert_eq!(Response::from_str(frame), Err(InternalError::Notify));
}

#[test]
fn unknown_payload_fails() {
    assert_eq!(ok("<bogus>1</bogus>"), Err(InternalError::UnknownData));
    assert_eq!(ok("<Value><u8>1</u8></Value>"), Err(InternalError::UnknownData));
    assert_eq!(ok("<bogus/>"), Err(InternalError::Response));
    assert_eq!(ok("text"), Err(InternalError::Response));
}

#[test]
fn frame_without_status_fails() {
    assert_eq!(Response::from_str(""), Err(InternalError::Response));
    assert_eq!(Response::from_str("FS_OK"), Err(InternalError::Response));
    assert_eq!(Response::from_str("<fsapiResponse></fsapiResponse>"), Err(InternalError::Response));
    assert_eq!(Response::from_str("<fsapiResponse>FS_OK</fsapiResponse>"), Err(InternalError::Response));
    assert_eq!(Response::from_str("<fsapiResponse><status/></fsapiResponse>"), Err(InternalError::Response));
}

#[test]
fn malformed_xml_fails() {
    assert_eq!(Response::from_str("<fsapiResponse><status>FS_OK</stat>"), Err(InternalError::Xml));
    assert_eq!(Response::from_str("<fsapiResponse><status>FS_OK"), Err(InternalError::Xml));
    assert_eq!(Response::from_str("</fsapiResponse>"), Err(InternalError::Xml));
    assert_eq!(Response::from_str("<fsapiResponse></status>"), Err(InternalError::Xml));
    assert_eq!(ok("<value><u8>7</u9></value>"), Err(InternalError::Xml));
    assert_eq!(ok("<value><c8_array>a &bogus; b</c8_array></value>"), Err(InternalError::Xml));
}

#[test]
fn status_element_may_be_empty() {
    assert_eq!(
        Response::from_str("<fsapiResponse><status></status></fsapiResponse>"),
        Err(InternalError::UnknownStatus)
    );
}

#[test]
fn blanks_between_elements_do_not_count() {
    let frame = "\n<fsapiResponse>\n  <status>FS_OK</status>\n  <value>\n    <u8>7</u8>\n  </value>\n</fsapiResponse>\n";
    assert_eq!(
        Response::from_str(frame),
        Ok(Response { status: ResponseStatus::Okay, data: Some(Data::Value(Value::U8(7))) })
    );
}

#[test]
fn tokenize_hands_out_the_events_of_a_document() {
    let events = tokenize("<a x=\"1\" y=\"2\">t &amp; u<b/><!-- c --></a>");
    assert_eq!(
        events,
        vec![
            XmlEvent::Start(b"a".to_vec(), Some(Some(b"1".to_vec()))),
            XmlEvent::Text(b"t &amp; u".to_vec(), Some(String::from("t & u"))),
            XmlEvent::Empty(b"b".to_vec()),
            XmlEvent::Other,
            XmlEvent::End(b"a".to_vec()),
            XmlEvent::Eof,
        ]
    );
}

#[test]
fn tokenize_ends_with_the_first_failure() {
    assert_eq!(tokenize(""), vec![XmlEvent::Eof]);
    assert_eq!(
        tokenize("<a></b><c/>"),
        vec![XmlEvent::Start(b"a".to_vec(), None), XmlEvent::Failed]
    );
    assert_eq!(
        tokenize("<a x=1>"),
        vec![XmlEvent::Start(b"a".to_vec(), Some(None)), XmlEvent::Eof]
    );
    assert_eq!(
        tokenize("<a>&bogus;</a>"),
        vec![
            XmlEvent::Start(b"a".to_vec(), None),
            XmlEvent::Text(b"&bogus;".to_vec(), None),
            XmlEvent::End(b"a".to_vec()),
            XmlEvent::Eof,
        ]
    );
}

fn start(name: &str) -> XmlEvent {
    XmlEvent::Start(name.as_bytes().to_vec(), None)
}

fn start_with(name: &str, attribute: &[u8]) -> XmlEvent {
    XmlEvent::Start(name.as_bytes().to_vec(), Some(Some(attribute.to_vec())))
}

fn end(name: &str) -> XmlEvent {
    XmlEvent::End(name.as_bytes().to_vec())
}

fn chars(s: &str) -> XmlEvent {
    XmlEvent::Text(s.as_bytes().to_vec(), Some(String::from(s)))
}

#[test]
fn response_from_events_of_a_value_frame() {
    let events = vec![
        start("fsapiResponse"),
        start("status"),
        chars("FS_OK"),
        end("status"),
        start("value"),
        start("u8"),
        chars("7"),
        end("u8"),
        end("value"),
        end("fsapiResponse"),
        XmlEvent::Eof,
    ];
    assert_eq!(
        Response::from_events(&events),
        Ok(Response { status: ResponseStatus::Okay, data: Some(Data::Value(Value::U8(7))) })
    );
}

#[test]
fn response_from_no_events_fails() {
    assert_eq!(Response::from_events(&[]), Err(InternalError::Response));
    assert_eq!(Response::from_events(&[XmlEvent::Failed]), Err(InternalError::Xml));
    assert_eq!(
        Response::from_events(&[start("fsapiResponse"), XmlEvent::Failed]),
        Err(InternalError::Xml)
    );
}

#[test]
fn value_from_events_says_where_it_ends() {
    let events = vec![XmlEvent::Other, start("s16"), chars("-5"), XmlEvent::Other, end("s16"), XmlEvent::Eof];
    assert_eq!(Value::from_events(&events, 1), Ok((Value::S16(-5), 5)));
    assert_eq!(Value::from_events(&events, 0), Err(InternalError::MalformedValue));
    assert_eq!(Value::from_events(&events, 9), Err(InternalError::MalformedValue));
}

#[test]
fn value_element_of_the_same_name_inside_is_balanced() {
    let events = vec![
        start("c8_array"),
        chars("a"),
        start("c8_array"),
        end("c8_array"),
        end("c8_array"),
        end("value"),
    ];
    assert_eq!(Value::from_events(&events, 0), Ok((text("a"), 5)));
}

#[test]
fn field_name_that_is_no_utf8_fails() {
    let events = vec![
        start_with("field", &[0x66, 0xff]),
        start("u8"),
        chars("1"),
        end("u8"),
        end("field"),
        end("item"),
    ];
    assert_eq!(Field::fields_from_events(&events, 0), Err(InternalError::Utf8));
}

#[test]
fn field_name_is_decoded_from_utf8() {
    let events = vec![
        start_with("field", "caf\u{e9}".as_bytes()),
        start("u8"),
        chars("1"),
        end("u8"),
        end("field"),
        end("item"),
        XmlEvent::Eof,
    ];
    assert_eq!(
        Field::fields_from_events(&events, 0),
        Ok((vec![field("caf\u{e9}", Value::U8(1))], 6))
    );
}

#[test]
fn items_from_events_take_the_first_key_from_the_caller() {
    let events = vec![
        end("item"),
        start_with("item", b"9"),
        end("item"),
        XmlEvent::Empty(b"listend".to_vec()),
        end("fsapiResponse"),
    ];
    assert_eq!(
        Item::items_from_events(&events, 0, 5),
        Ok((vec![Item { key: 5, fields: vec![] }, Item { key: 9, fields: vec![] }], 4))
    );
}

#[test]
fn notifications_from_events_stop_after_the_end_of_the_frame() {
    let events = vec![
        start("value"),
        start("u8"),
        chars("3"),
        end("u8"),
        end("value"),
        end("notify"),
        end("fsapiResponse"),
        start("more"),
    ];
    assert_eq!(
        Notification::notifications_from_events(&events, 0, Node::SysAudioVolume),
        Ok((vec![Notification { node: Node::SysAudioVolume, value: Value::U8(3) }], 7))
    );
}

#[test]
fn session_id_is_read_as_it_is_written() {
    let events = vec![XmlEvent::Text(b"&#49;".to_vec(), Some(String::from("1")))];
    assert_eq!(SessionID::from_events(&events, 0), Err(InternalError::Number));
    let events = vec![XmlEvent::Text(b"17".to_vec(), None)];
    assert_eq!(SessionID::from_events(&events, 0), Ok(SessionID(17)));
}

#[test]
fn data_from_events_at_the_end_of_the_frame_is_none() {
    assert_eq!(Data::from_events(&[end("fsapiResponse")], 0), Ok(None));
    assert_eq!(Data::from_events(&[], 0), Err(InternalError::Response));
}
