//! The decoders of a response frame. Each computes what the grammar says of
//! the events it is given.

use crate::error::{Failure, InternalError};
use crate::grammar::{
    after, data_at, element_text, end_of, fields_at, items_at, key_of, name_of, node_of,
    is_value_tag, notifications_at, response_of, session_at, status_of, token_at, typed_value,
    value_at,
};
use crate::node::Node;
use crate::number::{parse_i16, parse_u32, parse_u8};
use crate::text::{bytes_are, same_bytes, same_text, text_of};
use crate::value::{
    Data, DataView, Field, FieldView, Item, ItemView, Notification, NotificationView, Response,
    ResponseStatus, ResponseView, SessionID, Value, ValueView, data_view, fields_view,
    items_view, notifications_view,
};
use crate::xml::{XmlEvent, attribute_view, tokenize, tokens_of, xml_events};
use vstd::prelude::*;

verus! {

/// The event at `pos`, with the end of the document past the last one.
fn event_at(events: &[XmlEvent], pos: usize) -> (event: &XmlEvent)
    ensures
        event@ == token_at(tokens_of(events@), pos as int),
{
    if pos < events.len() {
        &events[pos]
    } else {
        &XmlEvent::Eof
    }
}

/// Passes over the rest of the element `name`.
fn skip_to_end(events: &[XmlEvent], pos: usize, name: &[u8]) -> (next: Option<usize>)
    ensures
        match next {
            Some(n) => end_of(tokens_of(events@), pos as int, name@, 0) == Some(n as int) && pos
                < n <= events.len(),
            None => end_of(tokens_of(events@), pos as int, name@, 0) is None,
        },
{
    let ghost tokens = tokens_of(events@);
    let mut i: usize = pos;
    let mut depth: usize = 0;
    while i < events.len()
        invariant
            pos <= i,
            depth <= i - pos,
            tokens == tokens_of(events@),
            end_of(tokens, pos as int, name@, 0) == end_of(tokens, i as int, name@, depth as nat),
        decreases events.len() - i,
    {
        match &events[i] {
            XmlEvent::End(n) => {
                if same_bytes(n.as_slice(), name) {
                    if depth == 0 {
                        return Some(i + 1);
                    }
                    depth -= 1;
                }
            },
            XmlEvent::Start(n, _) => {
                if same_bytes(n.as_slice(), name) {
                    depth += 1;
                }
            },
            XmlEvent::Eof | XmlEvent::Failed => {
                return None;
            },
            _ => {},
        }
        i += 1;
    }
    None
}

/// Reads the text of the element `name` whose start tag stands just before
/// `pos`.
fn read_text(events: &[XmlEvent], pos: usize, name: &[u8]) -> (r: Option<(String, usize)>)
    ensures
        match r {
            Some((text, next)) => element_text(tokens_of(events@), pos as int, name@) == Some(
                (text@, next as int),
            ) && pos < next <= events.len(),
            None => element_text(tokens_of(events@), pos as int, name@) is None,
        },
{
    let event = event_at(events, pos);
    match event {
        XmlEvent::Text(_, text) => {
            assert(event@ is Text && pos < events.len());
            match skip_to_end(events, pos + 1, name) {
                Some(next) => match text {
                    Some(t) => Some((t.clone(), next)),
                    None => None,
                },
                None => None,
            }
        },
        XmlEvent::End(n) => {
            assert(event@ is End && pos < events.len());
            if same_bytes(n.as_slice(), name) {
                Some((String::new(), pos + 1))
            } else {
                None
            }
        },
        _ => None,
    }
}

/// Whether the tag names one of the five types of value.
fn names_a_type(name: &[u8]) -> (known: bool)
    ensures
        known == is_value_tag(name@),
{
    bytes_are(name, "c8_array") || bytes_are(name, "u8") || bytes_are(name, "s16") || bytes_are(
        name,
        "u32",
    ) || bytes_are(name, "array")
}

impl Value {
    /// The value that `text` writes in an element `name`.
    pub fn typed(name: &[u8], text: String) -> (r: Result<Value, InternalError>)
        ensures
            match r {
                Ok(value) => typed_value(name@, text@) == Ok::<_, Failure>(value@),
                Err(e) => typed_value(name@, text@) == Err::<ValueView, _>(e@),
            },
    {
        if bytes_are(name, "c8_array") {
            Ok(Value::Text(text))
        } else if bytes_are(name, "u8") {
            match parse_u8(text.as_str().as_bytes()) {
                Some(v) => Ok(Value::U8(v)),
                None => Err(InternalError::Number),
            }
        } else if bytes_are(name, "s16") {
            match parse_i16(text.as_str().as_bytes()) {
                Some(v) => Ok(Value::S16(v)),
                None => Err(InternalError::Number),
            }
        } else if bytes_are(name, "u32") {
            match parse_u32(text.as_str().as_bytes()) {
                Some(v) => Ok(Value::U32(v)),
                None => Err(InternalError::Number),
            }
        } else if bytes_are(name, "array") {
            Ok(Value::Array(text))
        } else {
            Err(InternalError::UnknownValueType)
        }
    }

    /// Decodes the value whose element starts at `pos`; with it comes the
    /// position after the element.
    pub fn from_events(events: &[XmlEvent], pos: usize) -> (r: Result<(Value, usize), InternalError>)
        ensures
            match r {
                Ok((value, next)) => value_at(tokens_of(events@), pos as int) == Ok::<_, Failure>(
                    (value@, next as int),
                ) && pos < next <= events.len(),
                Err(e) => value_at(tokens_of(events@), pos as int) == Err::<(ValueView, int), _>(e@),
            },
    {
        let event = event_at(events, pos);
        match event {
            XmlEvent::Start(name, _) => {
                assert(event@ is Start && pos < events.len());
                let name = name.as_slice();
                if !names_a_type(name) {
                    return Err(InternalError::UnknownValueType);
                }
                match read_text(events, pos + 1, name) {
                    Some((text, next)) => match Value::typed(name, text) {
                        Ok(value) => Ok((value, next)),
                        Err(e) => Err(e),
                    },
                    None => Err(InternalError::Xml),
                }
            },
            XmlEvent::Failed => Err(InternalError::Xml),
            _ => Err(InternalError::MalformedValue),
        }
    }
}

impl SessionID {
    /// Decodes the session identifier whose text stands at `pos`.
    pub fn from_events(events: &[XmlEvent], pos: usize) -> (r: Result<SessionID, InternalError>)
        ensures
            match r {
                Ok(id) => session_at(tokens_of(events@), pos as int) == Ok::<_, Failure>(id),
                Err(e) => session_at(tokens_of(events@), pos as int) == Err::<SessionID, _>(e@),
            },
    {
        match event_at(events, pos) {
            XmlEvent::Text(raw, _) => match parse_u32(raw.as_slice()) {
                Some(id) => Ok(SessionID(id)),
                None => Err(InternalError::Number),
            },
            XmlEvent::Failed => Err(InternalError::Xml),
            _ => Err(InternalError::SessionId),
        }
    }
}

/// Reads a record's key off its start tag.
fn read_key(attribute: &Option<Option<Vec<u8>>>) -> (r: Result<u32, InternalError>)
    ensures
        match r {
            Ok(key) => key_of(attribute_view(*attribute)) == Ok::<_, Failure>(key),
            Err(e) => key_of(attribute_view(*attribute)) == Err::<u32, _>(e@),
        },
{
    match attribute {
        None => Err(InternalError::Item),
        Some(None) => Err(InternalError::Xml),
        Some(Some(value)) => match parse_u32(value.as_slice()) {
            Some(key) => Ok(key),
            None => Err(InternalError::Number),
        },
    }
}

/// Reads a field's name off its start tag.
fn read_name(attribute: &Option<Option<Vec<u8>>>) -> (r: Result<String, InternalError>)
    ensures
        match r {
            Ok(name) => name_of(attribute_view(*attribute)) == Ok::<_, Failure>(name@),
            Err(e) => name_of(attribute_view(*attribute)) == Err::<Seq<char>, _>(e@),
        },
{
    match attribute {
        None => Err(InternalError::Item),
        Some(None) => Err(InternalError::Xml),
        Some(Some(value)) => match text_of(value.as_slice()) {
            Some(name) => Ok(name),
            None => Err(InternalError::Utf8),
        },
    }
}

/// Reads a notification's node off its start tag.
fn read_node(attribute: &Option<Option<Vec<u8>>>) -> (r: Result<Node, InternalError>)
    ensures
        match r {
            Ok(node) => node_of(attribute_view(*attribute)) == Ok::<_, Failure>(node),
            Err(e) => node_of(attribute_view(*attribute)) == Err::<Node, _>(e@),
        },
{
    match attribute {
        None => Err(InternalError::Notify),
        Some(None) => Err(InternalError::Xml),
        Some(Some(value)) => match Node::parse(value.as_slice()) {
            Some(node) => Ok(node),
            None => Err(InternalError::UnknownNode),
        },
    }
}

impl Field {
    /// Decodes the fields of the record that is open at `pos`, up to the
    /// record's end tag; with them comes the position after that tag.
    pub fn fields_from_events(events: &[XmlEvent], pos: usize) -> (r: Result<
        (Vec<Field>, usize),
        InternalError,
    >)
        ensures
            match r {
                Ok((fields, next)) => fields_at(tokens_of(events@), pos as int) == Ok::<_, Failure>(
                    (fields_view(fields@), next as int),
                ) && pos < next <= events.len(),
                Err(e) => fields_at(tokens_of(events@), pos as int) == Err::<
                    (Seq<FieldView>, int),
                    _,
                >(e@),
            },
    {
        let ghost tokens = tokens_of(events@);
        let mut fields: Vec<Field> = Vec::new();
        let mut at: usize = pos;
        loop
            invariant
                pos <= at,
                tokens == tokens_of(events@),
                fields_at(tokens, pos as int) == after(
                    fields_view(fields@),
                    fields_at(tokens, at as int),
                ),
            decreases events.len() - at,
        {
            let event = event_at(events, at);
            match event {
                XmlEvent::Start(name, attribute) => {
                    if !bytes_are(name.as_slice(), "field") {
                        return Err(InternalError::Field);
                    }
                    let field_name = match read_name(attribute) {
                        Ok(n) => n,
                        Err(e) => {
                            return Err(e);
                        },
                    };
                    let (value, next) = match Value::from_events(events, at + 1) {
                        Ok(decoded) => decoded,
                        Err(e) => {
                            return Err(e);
                        },
                    };
                    if next >= events.len() {
                        return Err(InternalError::Field);
                    }
                    if let XmlEvent::Failed = &events[next] {
                        return Err(InternalError::Xml);
                    }
                    let field = Field { name: field_name, value };
                    proof {
                        let before = fields_view(fields@);
                        let rest = fields_at(tokens, next + 1);
                        assert(fields_view(fields@.push(field)) =~= before.push(field@));
                        if let Ok((more, end)) = rest {
                            assert(before + (seq![field@] + more) =~= before.push(field@) + more);
                        }
                    }
                    fields.push(field);
                    at = next + 1;
                },
                XmlEvent::End(name) => {
                    if bytes_are(name.as_slice(), "item") {
                        return Ok((fields, at + 1));
                    }
                    return Err(InternalError::Field);
                },
                XmlEvent::Failed => {
                    return Err(InternalError::Xml);
                },
                _ => {
                    return Err(InternalError::Field);
                },
            }
        }
    }
}

impl Item {
    /// Decodes the records of a list from the one that is open at `pos` and
    /// has the key `first_key`, up to `<listend/>`; with them comes the
    /// position after that.
    pub fn items_from_events(events: &[XmlEvent], pos: usize, first_key: u32) -> (r: Result<
        (Vec<Item>, usize),
        InternalError,
    >)
        ensures
            match r {
                Ok((items, next)) => items_at(tokens_of(events@), pos as int, first_key) == Ok::<
                    _,
                    Failure,
                >((items_view(items@), next as int)) && pos < next <= events.len(),
                Err(e) => items_at(tokens_of(events@), pos as int, first_key) == Err::<
                    (Seq<ItemView>, int),
                    _,
                >(e@),
            },
    {
        let ghost tokens = tokens_of(events@);
        let mut items: Vec<Item> = Vec::new();
        let mut key: u32 = first_key;
        let mut at: usize = pos;
        loop
            invariant
                pos <= at,
                tokens == tokens_of(events@),
                items_at(tokens, pos as int, first_key) == after(
                    items_view(items@),
                    items_at(tokens, at as int, key),
                ),
            decreases events.len() - at,
        {
            let (fields, next) = match Field::fields_from_events(events, at) {
                Ok(decoded) => decoded,
                Err(e) => {
                    return Err(e);
                },
            };
            let item = Item { key, fields };
            let ghost before = items_view(items@);
            proof {
                assert(items_view(items@.push(item)) =~= before.push(item@));
            }
            items.push(item);
            // The key of the record that follows is on its start tag and
            // nowhere else: it is taken here or lost.
            let event = event_at(events, next);
            match event {
                XmlEvent::Start(name, attribute) => {
                    if !bytes_are(name.as_slice(), "item") {
                        return Err(InternalError::Item);
                    }
                    let next_key = match read_key(attribute) {
                        Ok(k) => k,
                        Err(e) => {
                            return Err(e);
                        },
                    };
                    proof {
                        let rest = items_at(tokens, next + 1, next_key);
                        if let Ok((more, end)) = rest {
                            assert(before + (seq![item@] + more) =~= before.push(item@) + more);
                        }
                    }
                    key = next_key;
                    at = next + 1;
                },
                XmlEvent::Empty(name) => {
                    if bytes_are(name.as_slice(), "listend") {
                        assert(before + seq![item@] =~= before.push(item@));
                        return Ok((items, next + 1));
                    }
                    return Err(InternalError::Item);
                },
                XmlEvent::Failed => {
                    return Err(InternalError::Xml);
                },
                _ => {
                    return Err(InternalError::Item);
                },
            }
        }
    }
}

impl Notification {
    /// Decodes the notifications of a batch from the one that is open at
    /// `pos` and is about `first_node`, up to the end tag of the frame; with
    /// them comes the position after that tag.
    pub fn notifications_from_events(events: &[XmlEvent], pos: usize, first_node: Node) -> (r:
        Result<(Vec<Notification>, usize), InternalError>)
        ensures
            match r {
                Ok((batch, next)) => notifications_at(tokens_of(events@), pos as int, first_node)
                    == Ok::<_, Failure>((notifications_view(batch@), next as int)) && pos < next
                    <= events.len(),
                Err(e) => notifications_at(tokens_of(events@), pos as int, first_node) == Err::<
                    (Seq<NotificationView>, int),
                    _,
                >(e@),
            },
    {
        let ghost tokens = tokens_of(events@);
        let mut batch: Vec<Notification> = Vec::new();
        let mut node: Node = first_node;
        let mut at: usize = pos;
        loop
            invariant
                pos <= at,
                tokens == tokens_of(events@),
                notifications_at(tokens, pos as int, first_node) == after(
                    notifications_view(batch@),
                    notifications_at(tokens, at as int, node),
                ),
            decreases events.len() - at,
        {
            // The element that wraps the value.
            if let XmlEvent::Failed = event_at(events, at) {
                return Err(InternalError::Xml);
            }
            if at >= events.len() {
                return Err(InternalError::MalformedValue);
            }
            let (value, next) = match Value::from_events(events, at + 1) {
                Ok(decoded) => decoded,
                Err(e) => {
                    return Err(e);
                },
            };
            // Its end tag, and the end tag of the notification.
            if let XmlEvent::Failed = event_at(events, next) {
                return Err(InternalError::Xml);
            }
            if next >= events.len() {
                return Err(InternalError::Notify);
            }
            if let XmlEvent::Failed = event_at(events, next + 1) {
                return Err(InternalError::Xml);
            }
            if next + 1 >= events.len() {
                return Err(InternalError::Notify);
            }
            let notification = Notification { node, value };
            let ghost before = notifications_view(batch@);
            proof {
                assert(notifications_view(batch@.push(notification)) =~= before.push(
                    notification@,
                ));
            }
            batch.push(notification);
            // The node of the notification that follows is on its start tag
            // and nowhere else: it is taken here or lost.
            let event = event_at(events, next + 2);
            match event {
                XmlEvent::Start(name, attribute) => {
                    if !bytes_are(name.as_slice(), "notify") {
                        return Err(InternalError::Notify);
                    }
                    let next_node = match read_node(attribute) {
                        Ok(n) => n,
                        Err(e) => {
                            return Err(e);
                        },
                    };
                    proof {
                        let rest = notifications_at(tokens, next + 3, next_node);
                        if let Ok((more, end)) = rest {
                            assert(before + (seq![notification@] + more) =~= before.push(
                                notification@,
                            ) + more);
                        }
                    }
                    node = next_node;
                    at = next + 3;
                },
                XmlEvent::End(name) => {
                    if bytes_are(name.as_slice(), "fsapiResponse") {
                        assert(before + seq![notification@] =~= before.push(notification@));
                        return Ok((batch, next + 3));
                    }
                    return Err(InternalError::Notify);
                },
                XmlEvent::Failed => {
                    return Err(InternalError::Xml);
                },
                _ => {
                    return Err(InternalError::Notify);
                },
            }
        }
    }
}

impl Data {
    /// Decodes the payload that stands at `pos`, after the status; `None`
    /// where the frame ends there.
    pub fn from_events(events: &[XmlEvent], pos: usize) -> (r: Result<Option<Data>, InternalError>)
        ensures
            match r {
                Ok(data) => data_at(tokens_of(events@), pos as int) == Ok::<_, Failure>(
                    data_view(data),
                ),
                Err(e) => data_at(tokens_of(events@), pos as int) == Err::<Option<DataView>, _>(
                    e@,
                ),
            },
    {
        let event = event_at(events, pos);
        match event {
            XmlEvent::Start(name, attribute) => {
                assert(event@ is Start && pos < events.len());
                let name = name.as_slice();
                if bytes_are(name, "value") {
                    match Value::from_events(events, pos + 1) {
                        Ok((value, _)) => Ok(Some(Data::Value(value))),
                        Err(e) => Err(e),
                    }
                } else if bytes_are(name, "sessionId") {
                    match SessionID::from_events(events, pos + 1) {
                        Ok(id) => Ok(Some(Data::SessionID(id))),
                        Err(e) => Err(e),
                    }
                } else if bytes_are(name, "item") {
                    match read_key(attribute) {
                        Ok(key) => match Item::items_from_events(events, pos + 1, key) {
                            Ok((items, _)) => Ok(Some(Data::Items(items))),
                            Err(e) => Err(e),
                        },
                        Err(e) => Err(e),
                    }
                } else if bytes_are(name, "notify") {
                    match read_node(attribute) {
                        Ok(node) => match Notification::notifications_from_events(
                            events,
                            pos + 1,
                            node,
                        ) {
                            Ok((batch, _)) => Ok(Some(Data::Notify(batch))),
                            Err(e) => Err(e),
                        },
                        Err(e) => Err(e),
                    }
                } else {
                    Err(InternalError::UnknownData)
                }
            },
            XmlEvent::Empty(name) => {
                if bytes_are(name.as_slice(), "listend") {
                    let items: Vec<Item> = Vec::new();
                    assert(items_view(items@) =~= Seq::<ItemView>::empty());
                    Ok(Some(Data::Items(items)))
                } else {
                    Err(InternalError::Response)
                }
            },
            XmlEvent::End(_) => Ok(None),
            XmlEvent::Failed => Err(InternalError::Xml),
            _ => Err(InternalError::Response),
        }
    }
}

impl ResponseStatus {
    /// The status that `text` names, if it names one.
    pub fn parse(text: &str) -> (status: Option<ResponseStatus>)
        ensures
            status == status_of(text@),
    {
        if same_text(text, "FS_OK") {
            Some(ResponseStatus::Okay)
        } else if same_text(text, "FS_FAIL") {
            Some(ResponseStatus::Fail)
        } else if same_text(text, "FS_PACKET_BAD") {
            Some(ResponseStatus::PacketBad)
        } else if same_text(text, "FS_NODE_BLOCKED") {
            Some(ResponseStatus::NodeBlocked)
        } else if same_text(text, "FS_NODE_DOES_NOT_EXIST") {
            Some(ResponseStatus::NodeDoesNotExist)
        } else if same_text(text, "FS_TIMEOUT") {
            Some(ResponseStatus::Timeout)
        } else if same_text(text, "FS_LIST_END") {
            Some(ResponseStatus::ListEnd)
        } else {
            None
        }
    }
}

impl Response {
    /// Decodes a response from the events of its frame.
    pub fn from_events(events: &[XmlEvent]) -> (r: Result<Response, InternalError>)
        ensures
            match r {
                Ok(response) => response_of(tokens_of(events@)) == Ok::<_, Failure>(response@)
                    && response@.well_formed(),
                Err(e) => response_of(tokens_of(events@)) == Err::<ResponseView, _>(e@),
            },
    {
        // The tag that opens the frame.
        if let XmlEvent::Failed = event_at(events, 0) {
            return Err(InternalError::Xml);
        }
        let event = event_at(events, 1);
        match event {
            XmlEvent::Start(name, _) => {
                let (text, next) = match read_text(events, 2, name.as_slice()) {
                    Some(read) => read,
                    None => {
                        return Err(InternalError::Xml);
                    },
                };
                let status = match ResponseStatus::parse(text.as_str()) {
                    Some(status) => status,
                    None => {
                        return Err(InternalError::UnknownStatus);
                    },
                };
                let data = match status {
                    ResponseStatus::Okay => match Data::from_events(events, next) {
                        Ok(data) => data,
                        Err(e) => {
                            return Err(e);
                        },
                    },
                    _ => None,
                };
                Ok(Response { status, data })
            },
            XmlEvent::Failed => Err(InternalError::Xml),
            _ => Err(InternalError::Response),
        }
    }

    /// Decodes a response from the text of its frame.
    pub fn from_str(s: &str) -> (r: Result<Response, InternalError>)
        ensures
            match r {
                Ok(response) => response_of(xml_events(s@)) == Ok::<_, Failure>(response@)
                    && response@.well_formed(),
                Err(e) => response_of(xml_events(s@)) == Err::<ResponseView, _>(e@),
            },
    {
        let events = tokenize(s);
        Response::from_events(events.as_slice())
    }
}

} // verus!
