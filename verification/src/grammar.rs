//! The grammar of a response frame, over the events of its XML.
//!
//! A frame is an outer element that holds a status element and then, where the
//! status is `FS_OK`, at most one payload: a value, a session identifier, a
//! list of records closed by `<listend/>`, or a batch of notifications closed
//! by the end of the frame. The spec functions of this module say what each
//! part decodes to and where it ends.

use crate::error::Failure;
use crate::node::Node;
use crate::number::{parse_i16_spec, parse_u32_spec, parse_u8_spec};
use crate::value::{
    DataView, FieldView, ItemView, NotificationView, ResponseStatus, ResponseView, SessionID,
    ValueView,
};
use crate::xml::Token;
use vstd::prelude::*;
use vstd::utf8::{decode_utf8, encode_utf8, is_ascii_chars, is_ascii_chars_encode_utf8, valid_utf8};

verus! {

/// The bytes of a tag's name.
pub open spec fn tag(name: &str) -> Seq<u8> {
    encode_utf8(name@)
}

/// The event at `pos`. Past the last event the document has ended.
pub open spec fn token_at(tokens: Seq<Token>, pos: int) -> Token {
    if 0 <= pos < tokens.len() {
        tokens[pos]
    } else {
        Token::Eof
    }
}

/// The position after the end tag that closes the element `name`, which is
/// open `depth` levels deeper than an element of the same name, looking from
/// `pos` on. Whatever else stands before that end tag is passed over. `None`
/// where the document ends or fails first.
pub open spec fn end_of(tokens: Seq<Token>, pos: int, name: Seq<u8>, depth: nat) -> Option<int>
    decreases tokens.len() - pos,
{
    if pos < 0 || pos >= tokens.len() {
        None
    } else {
        match tokens[pos] {
            Token::End { name: n } => if n != name {
                end_of(tokens, pos + 1, name, depth)
            } else if depth == 0 {
                Some(pos + 1)
            } else {
                end_of(tokens, pos + 1, name, (depth - 1) as nat)
            },
            Token::Start { name: n, .. } => if n == name {
                end_of(tokens, pos + 1, name, depth + 1)
            } else {
                end_of(tokens, pos + 1, name, depth)
            },
            Token::Eof | Token::Failed => None,
            _ => end_of(tokens, pos + 1, name, depth),
        }
    }
}

/// The text of the element `name` whose start tag stands just before `pos`,
/// and the position after its end tag. An element that is closed at once has
/// the empty text; otherwise its text is the text event at `pos`, unescaped,
/// and the rest of the element is passed over.
pub open spec fn element_text(tokens: Seq<Token>, pos: int, name: Seq<u8>) -> Option<
    (Seq<char>, int),
> {
    match token_at(tokens, pos) {
        Token::Text { text, .. } => match (end_of(tokens, pos + 1, name, 0), text) {
            (Some(next), Some(t)) => Some((t, next)),
            _ => None,
        },
        Token::End { name: n } => if n == name {
            Some((Seq::<char>::empty(), pos + 1))
        } else {
            None
        },
        _ => None,
    }
}

/// The tag names one of the five types of value.
pub open spec fn is_value_tag(name: Seq<u8>) -> bool {
    ||| name == tag("c8_array")
    ||| name == tag("u8")
    ||| name == tag("s16")
    ||| name == tag("u32")
    ||| name == tag("array")
}

/// The value that `text` writes in an element `name`. The tag alone decides
/// the type: `c8_array` and `array` take the text as it is, `u8`, `s16` and
/// `u32` take a decimal number of their width and nothing else.
pub open spec fn typed_value(name: Seq<u8>, text: Seq<char>) -> Result<ValueView, Failure> {
    if name == tag("c8_array") {
        Ok(ValueView::Text(text))
    } else if name == tag("u8") {
        match parse_u8_spec(encode_utf8(text)) {
            Some(v) => Ok(ValueView::U8(v)),
            None => Err(Failure::Number),
        }
    } else if name == tag("s16") {
        match parse_i16_spec(encode_utf8(text)) {
            Some(v) => Ok(ValueView::S16(v)),
            None => Err(Failure::Number),
        }
    } else if name == tag("u32") {
        match parse_u32_spec(encode_utf8(text)) {
            Some(v) => Ok(ValueView::U32(v)),
            None => Err(Failure::Number),
        }
    } else if name == tag("array") {
        Ok(ValueView::Array(text))
    } else {
        Err(Failure::UnknownValueType)
    }
}

/// The value whose element starts at `pos`, and the position after it.
pub open spec fn value_at(tokens: Seq<Token>, pos: int) -> Result<(ValueView, int), Failure> {
    match token_at(tokens, pos) {
        Token::Start { name, .. } => if !is_value_tag(name) {
            Err(Failure::UnknownValueType)
        } else {
            match element_text(tokens, pos + 1, name) {
                None => Err(Failure::Xml),
                Some((text, next)) => match typed_value(name, text) {
                    Ok(value) => Ok((value, next)),
                    Err(e) => Err(e),
                },
            }
        },
        Token::Failed => Err(Failure::Xml),
        _ => Err(Failure::MalformedValue),
    }
}

/// The session identifier whose text stands at `pos`.
pub open spec fn session_at(tokens: Seq<Token>, pos: int) -> Result<SessionID, Failure> {
    match token_at(tokens, pos) {
        Token::Text { raw, .. } => match parse_u32_spec(raw) {
            Some(id) => Ok(SessionID(id)),
            None => Err(Failure::Number),
        },
        Token::Failed => Err(Failure::Xml),
        _ => Err(Failure::SessionId),
    }
}

/// The key that a record's start tag carries in its first attribute.
pub open spec fn key_of(attribute: Option<Option<Seq<u8>>>) -> Result<u32, Failure> {
    match attribute {
        None => Err(Failure::Item),
        Some(None) => Err(Failure::Xml),
        Some(Some(value)) => match parse_u32_spec(value) {
            Some(key) => Ok(key),
            None => Err(Failure::Number),
        },
    }
}

/// The name that a field's start tag carries in its first attribute.
pub open spec fn name_of(attribute: Option<Option<Seq<u8>>>) -> Result<Seq<char>, Failure> {
    match attribute {
        None => Err(Failure::Item),
        Some(None) => Err(Failure::Xml),
        Some(Some(value)) => if valid_utf8(value) {
            Ok(decode_utf8(value))
        } else {
            Err(Failure::Utf8)
        },
    }
}

/// The node that a notification's start tag carries in its first attribute.
pub open spec fn node_of(attribute: Option<Option<Seq<u8>>>) -> Result<Node, Failure> {
    match attribute {
        None => Err(Failure::Notify),
        Some(None) => Err(Failure::Xml),
        Some(Some(value)) => match Node::named(value) {
            Some(node) => Ok(node),
            None => Err(Failure::UnknownNode),
        },
    }
}

/// A value, where it decodes, ends after where it starts and inside the
/// document.
pub proof fn lemma_value_advances(tokens: Seq<Token>, pos: int)
    ensures
        value_at(tokens, pos) matches Ok((_, next)) ==> pos + 2 <= next <= tokens.len(),
{
    if let Token::Start { name, .. } = token_at(tokens, pos) {
        lemma_text_advances(tokens, pos + 1, name);
    }
}

/// An element's text, where there is one, ends after where it starts and
/// inside the document.
pub proof fn lemma_text_advances(tokens: Seq<Token>, pos: int, name: Seq<u8>)
    ensures
        element_text(tokens, pos, name) matches Some((_, next)) ==> pos < next <= tokens.len(),
{
    if token_at(tokens, pos) is Text {
        lemma_end_advances(tokens, pos + 1, name, 0);
    }
}

/// An element's end, where it is found, lies after where the search starts
/// and inside the document.
pub proof fn lemma_end_advances(tokens: Seq<Token>, pos: int, name: Seq<u8>, depth: nat)
    ensures
        end_of(tokens, pos, name, depth) matches Some(next) ==> pos < next <= tokens.len(),
    decreases tokens.len() - pos,
{
    if 0 <= pos < tokens.len() {
        match tokens[pos] {
            Token::End { name: n } => if n != name {
                lemma_end_advances(tokens, pos + 1, name, depth);
            } else if depth != 0 {
                lemma_end_advances(tokens, pos + 1, name, (depth - 1) as nat);
            },
            Token::Start { name: n, .. } => if n == name {
                lemma_end_advances(tokens, pos + 1, name, depth + 1);
            } else {
                lemma_end_advances(tokens, pos + 1, name, depth);
            },
            Token::Eof | Token::Failed => {},
            _ => {
                lemma_end_advances(tokens, pos + 1, name, depth);
            },
        }
    }
}

/// The fields of the record that is open at `pos`, up to the record's end
/// tag, and the position after that tag. Each field is an element `field`
/// that names itself in its first attribute and holds one value.
pub open spec fn fields_at(tokens: Seq<Token>, pos: int) -> Result<(Seq<FieldView>, int), Failure>
    decreases tokens.len() - pos,
{
    match token_at(tokens, pos) {
        Token::Start { name, attribute } => if name != tag("field") {
            Err(Failure::Field)
        } else {
            match name_of(attribute) {
                Err(e) => Err(e),
                Ok(field_name) => match value_at(tokens, pos + 1) {
                    Err(e) => Err(e),
                    Ok((value, next)) => if token_at(tokens, next) is Failed {
                        Err(Failure::Xml)
                    } else if next >= tokens.len() {
                        Err(Failure::Field)
                    } else {
                        proof {
                            lemma_value_advances(tokens, pos + 1);
                        }
                        match fields_at(tokens, next + 1) {
                            Err(e) => Err(e),
                            Ok((rest, end)) => Ok(
                                (seq![FieldView { name: field_name, value }] + rest, end),
                            ),
                        }
                    },
                },
            }
        },
        Token::End { name } => if name == tag("item") {
            Ok((Seq::<FieldView>::empty(), pos + 1))
        } else {
            Err(Failure::Field)
        },
        Token::Failed => Err(Failure::Xml),
        _ => Err(Failure::Field),
    }
}

/// The records of a list from the one that is open at `pos` and has the key
/// `key`, up to `<listend/>`, and the position after that. The key of each
/// further record is the one that its own start tag carries.
pub open spec fn items_at(tokens: Seq<Token>, pos: int, key: u32) -> Result<
    (Seq<ItemView>, int),
    Failure,
>
    decreases tokens.len() - pos,
{
    match fields_at(tokens, pos) {
        Err(e) => Err(e),
        Ok((fields, next)) => {
            let item = ItemView { key, fields };
            match token_at(tokens, next) {
                Token::Start { name, attribute } => if name != tag("item") {
                    Err(Failure::Item)
                } else {
                    match key_of(attribute) {
                        Err(e) => Err(e),
                        Ok(next_key) => {
                            proof {
                                lemma_fields_advance(tokens, pos);
                            }
                            match items_at(tokens, next + 1, next_key) {
                                Err(e) => Err(e),
                                Ok((rest, end)) => Ok((seq![item] + rest, end)),
                            }
                        },
                    }
                },
                Token::Empty { name } => if name == tag("listend") {
                    Ok((seq![item], next + 1))
                } else {
                    Err(Failure::Item)
                },
                Token::Failed => Err(Failure::Xml),
                _ => Err(Failure::Item),
            }
        },
    }
}

/// The fields of a record, where they decode, end after where they start and
/// inside the document.
pub proof fn lemma_fields_advance(tokens: Seq<Token>, pos: int)
    ensures
        fields_at(tokens, pos) matches Ok((_, next)) ==> pos < next <= tokens.len(),
    decreases tokens.len() - pos,
{
    if let Token::Start { name, attribute } = token_at(tokens, pos) {
        if name == tag("field") {
            if let Ok(field_name) = name_of(attribute) {
                if let Ok((value, next)) = value_at(tokens, pos + 1) {
                    lemma_value_advances(tokens, pos + 1);
                    if !(token_at(tokens, next) is Failed) && next < tokens.len() {
                        lemma_fields_advance(tokens, next + 1);
                    }
                }
            }
        }
    }
}

/// The notifications of a batch from the one that is open at `pos` and is
/// about `node`, up to the end tag of the frame, and the position after that
/// tag. Each notification holds one element, which holds one value; the node
/// of each further one is the one that its own start tag carries.
pub open spec fn notifications_at(tokens: Seq<Token>, pos: int, node: Node) -> Result<
    (Seq<NotificationView>, int),
    Failure,
>
    decreases tokens.len() - pos,
{
    if token_at(tokens, pos) is Failed {
        Err(Failure::Xml)
    } else {
        match value_at(tokens, pos + 1) {
            Err(e) => Err(e),
            Ok((value, next)) => if token_at(tokens, next) is Failed || token_at(tokens, next + 1)
                is Failed {
                Err(Failure::Xml)
            } else {
                let notification = NotificationView { node, value };
                match token_at(tokens, next + 2) {
                    Token::Start { name, attribute } => if name != tag("notify") {
                        Err(Failure::Notify)
                    } else {
                        match node_of(attribute) {
                            Err(e) => Err(e),
                            Ok(next_node) => {
                                proof {
                                    lemma_value_advances(tokens, pos + 1);
                                }
                                match notifications_at(tokens, next + 3, next_node) {
                                    Err(e) => Err(e),
                                    Ok((rest, end)) => Ok((seq![notification] + rest, end)),
                                }
                            },
                        }
                    },
                    Token::End { name } => if name == tag("fsapiResponse") {
                        Ok((seq![notification], next + 3))
                    } else {
                        Err(Failure::Notify)
                    },
                    Token::Failed => Err(Failure::Xml),
                    _ => Err(Failure::Notify),
                }
            },
        }
    }
}

/// The payload that stands at `pos`, after the status: a value, a session
/// identifier, a list of records, a batch of notifications, or none where the
/// frame ends there.
pub open spec fn data_at(tokens: Seq<Token>, pos: int) -> Result<Option<DataView>, Failure> {
    match token_at(tokens, pos) {
        Token::Start { name, attribute } => if name == tag("value") {
            match value_at(tokens, pos + 1) {
                Err(e) => Err(e),
                Ok((value, _)) => Ok(Some(DataView::Value(value))),
            }
        } else if name == tag("sessionId") {
            match session_at(tokens, pos + 1) {
                Err(e) => Err(e),
                Ok(id) => Ok(Some(DataView::SessionID(id))),
            }
        } else if name == tag("item") {
            match key_of(attribute) {
                Err(e) => Err(e),
                Ok(key) => match items_at(tokens, pos + 1, key) {
                    Err(e) => Err(e),
                    Ok((items, _)) => Ok(Some(DataView::Items(items))),
                },
            }
        } else if name == tag("notify") {
            match node_of(attribute) {
                Err(e) => Err(e),
                Ok(node) => match notifications_at(tokens, pos + 1, node) {
                    Err(e) => Err(e),
                    Ok((batch, _)) => Ok(Some(DataView::Notify(batch))),
                },
            }
        } else {
            Err(Failure::UnknownData)
        },
        Token::Empty { name } => if name == tag("listend") {
            Ok(Some(DataView::Items(Seq::<ItemView>::empty())))
        } else {
            Err(Failure::Response)
        },
        Token::End { .. } => Ok(None),
        Token::Failed => Err(Failure::Xml),
        _ => Err(Failure::Response),
    }
}

/// `prefix`, then what `rest` decoded to.
pub open spec fn after<T>(prefix: Seq<T>, rest: Result<(Seq<T>, int), Failure>) -> Result<
    (Seq<T>, int),
    Failure,
> {
    match rest {
        Ok((more, end)) => Ok((prefix + more, end)),
        Err(e) => Err(e),
    }
}

/// The status that the text names.
pub open spec fn status_of(text: Seq<char>) -> Option<ResponseStatus> {
    if text == "FS_OK"@ {
        Some(ResponseStatus::Okay)
    } else if text == "FS_FAIL"@ {
        Some(ResponseStatus::Fail)
    } else if text == "FS_PACKET_BAD"@ {
        Some(ResponseStatus::PacketBad)
    } else if text == "FS_NODE_BLOCKED"@ {
        Some(ResponseStatus::NodeBlocked)
    } else if text == "FS_NODE_DOES_NOT_EXIST"@ {
        Some(ResponseStatus::NodeDoesNotExist)
    } else if text == "FS_TIMEOUT"@ {
        Some(ResponseStatus::Timeout)
    } else if text == "FS_LIST_END"@ {
        Some(ResponseStatus::ListEnd)
    } else {
        None
    }
}

/// The status of a frame, and the position after the status element. The
/// first event opens the frame, the second opens the status element.
pub open spec fn status_at(tokens: Seq<Token>) -> Result<(ResponseStatus, int), Failure> {
    if token_at(tokens, 0) is Failed {
        Err(Failure::Xml)
    } else {
        match token_at(tokens, 1) {
            Token::Start { name, .. } => match element_text(tokens, 2, name) {
                None => Err(Failure::Xml),
                Some((text, next)) => match status_of(text) {
                    None => Err(Failure::UnknownStatus),
                    Some(status) => Ok((status, next)),
                },
            },
            Token::Failed => Err(Failure::Xml),
            _ => Err(Failure::Response),
        }
    }
}

/// The response that a frame's events decode to. A payload is looked for
/// only where the status is `FS_OK`.
pub open spec fn response_of(tokens: Seq<Token>) -> Result<ResponseView, Failure> {
    match status_at(tokens) {
        Err(e) => Err(e),
        Ok((status, next)) => if status == ResponseStatus::Okay {
            match data_at(tokens, next) {
                Err(e) => Err(e),
                Ok(data) => Ok(ResponseView { status, data }),
            }
        } else {
            Ok(ResponseView { status, data: None })
        },
    }
}

/// What a frame decodes to is well formed: there is no data without the
/// status `FS_OK`.
pub proof fn lemma_response_well_formed(tokens: Seq<Token>)
    ensures
        response_of(tokens) matches Ok(response) ==> response.well_formed(),
{
}

/// The two sequences hold the same first `n` events.
pub open spec fn agree(a: Seq<Token>, b: Seq<Token>, n: int) -> bool {
    &&& n <= a.len()
    &&& n <= b.len()
    &&& forall|i: int| 0 <= i < n ==> a[i] == b[i]
}

/// Where an element ends depends on nothing after its end tag.
pub proof fn lemma_end_reads_no_further(
    a: Seq<Token>,
    b: Seq<Token>,
    pos: int,
    name: Seq<u8>,
    depth: nat,
)
    requires
        end_of(a, pos, name, depth) matches Some(next) && agree(a, b, next),
    ensures
        end_of(b, pos, name, depth) == end_of(a, pos, name, depth),
    decreases a.len() - pos,
{
    lemma_end_advances(a, pos, name, depth);
    match a[pos] {
        Token::End { name: n } => if n != name {
            lemma_end_reads_no_further(a, b, pos + 1, name, depth);
        } else if depth != 0 {
            lemma_end_reads_no_further(a, b, pos + 1, name, (depth - 1) as nat);
        },
        Token::Start { name: n, .. } => if n == name {
            lemma_end_reads_no_further(a, b, pos + 1, name, depth + 1);
        } else {
            lemma_end_reads_no_further(a, b, pos + 1, name, depth);
        },
        Token::Eof | Token::Failed => {},
        _ => {
            lemma_end_reads_no_further(a, b, pos + 1, name, depth);
        },
    }
}

/// An element's text depends on nothing after the element.
pub proof fn lemma_text_reads_no_further(a: Seq<Token>, b: Seq<Token>, pos: int, name: Seq<u8>)
    requires
        0 <= pos,
        element_text(a, pos, name) matches Some((_, next)) && agree(a, b, next),
    ensures
        element_text(b, pos, name) == element_text(a, pos, name),
{
    lemma_text_advances(a, pos, name);
    if a[pos] is Text {
        lemma_end_reads_no_further(a, b, pos + 1, name, 0);
    }
}

/// A value depends on nothing after its element.
pub proof fn lemma_value_reads_no_further(a: Seq<Token>, b: Seq<Token>, pos: int)
    requires
        0 <= pos,
        value_at(a, pos) matches Ok((_, next)) && agree(a, b, next),
    ensures
        value_at(b, pos) == value_at(a, pos),
{
    lemma_value_advances(a, pos);
    if let Token::Start { name, .. } = a[pos] {
        lemma_text_reads_no_further(a, b, pos + 1, name);
    }
}

/// A frame whose status is not `FS_OK` decodes to that status and no data,
/// whatever follows the status element: every frame that is the same up to
/// there decodes to the same.
pub proof fn lemma_no_payload_unless_ok(frame: Seq<Token>, other: Seq<Token>)
    requires
        status_at(frame) matches Ok((status, next)) && status != ResponseStatus::Okay && agree(
            frame,
            other,
            next,
        ),
    ensures
        status_at(frame) matches Ok((status, _)) && response_of(frame) == Ok::<_, Failure>(
            ResponseView { status, data: None },
        ),
        response_of(other) == response_of(frame),
{
    if let Token::Start { name, .. } = token_at(frame, 1) {
        lemma_text_advances(frame, 2, name);
        lemma_text_reads_no_further(frame, other, 2, name);
    }
}

/// A frame with the status `FS_OK` that goes on with `<listend/>` holds a
/// list without records.
pub proof fn lemma_empty_list(tokens: Seq<Token>)
    requires
        status_at(tokens) matches Ok((status, next)) && status == ResponseStatus::Okay && token_at(
            tokens,
            next,
        ) == (Token::Empty { name: tag("listend") }),
    ensures
        response_of(tokens) == Ok::<_, Failure>(
            ResponseView {
                status: ResponseStatus::Okay,
                data: Some(DataView::Items(Seq::<ItemView>::empty())),
            },
        ),
{
}

/// The names of the five value elements differ from one another.
pub proof fn lemma_value_tags_differ()
    ensures
        tag("c8_array") != tag("u8"),
        tag("c8_array") != tag("s16"),
        tag("c8_array") != tag("u32"),
        tag("c8_array") != tag("array"),
        tag("u8") != tag("s16"),
        tag("u8") != tag("u32"),
        tag("u8") != tag("array"),
        tag("s16") != tag("u32"),
        tag("s16") != tag("array"),
        tag("u32") != tag("array"),
{
    reveal_strlit("c8_array");
    reveal_strlit("u8");
    reveal_strlit("s16");
    reveal_strlit("u32");
    reveal_strlit("array");
    lemma_ascii_tag("c8_array");
    lemma_ascii_tag("u8");
    lemma_ascii_tag("s16");
    lemma_ascii_tag("u32");
    lemma_ascii_tag("array");
    assert(tag("array").len() == 5);
    assert(tag("u8")[0] == 117u8);
    assert(tag("s16")[0] == 115u8);
    assert(tag("u32")[1] == 51u8);
}

/// A name in ASCII has one byte for each character.
proof fn lemma_ascii_tag(name: &str)
    requires
        is_ascii_chars(name@),
    ensures
        tag(name) == Seq::new(name@.len(), |i: int| name@[i] as u8),
{
    is_ascii_chars_encode_utf8(name@);
}

/// The variant of a value is the one that the tag names, and its content is
/// what the text writes.
pub proof fn lemma_value_follows_tag(name: Seq<u8>, text: Seq<char>)
    requires
        typed_value(name, text) is Ok,
    ensures
        typed_value(name, text) matches Ok(value) && {
            &&& value is Text <==> name == tag("c8_array")
            &&& value is U8 <==> name == tag("u8")
            &&& value is S16 <==> name == tag("s16")
            &&& value is U32 <==> name == tag("u32")
            &&& value is Array <==> name == tag("array")
            &&& value matches ValueView::Text(t) ==> t == text
            &&& value matches ValueView::Array(t) ==> t == text
            &&& value matches ValueView::U8(v) ==> parse_u8_spec(encode_utf8(text)) == Some(v)
            &&& value matches ValueView::S16(v) ==> parse_i16_spec(encode_utf8(text)) == Some(v)
            &&& value matches ValueView::U32(v) ==> parse_u32_spec(encode_utf8(text)) == Some(v)
        },
{
    lemma_value_tags_differ();
}

/// A numeric element whose text is no number of its width is refused as
/// such, whatever the text is, and so is it where the element stands in a
/// document.
pub proof fn lemma_value_refused(tokens: Seq<Token>, pos: int)
    requires
        token_at(tokens, pos) is Start,
    ensures
        token_at(tokens, pos) matches Token::Start { name, .. } && {
            &&& value_at(tokens, pos) == Err::<(ValueView, int), _>(Failure::Number) <==> (
            element_text(tokens, pos + 1, name) matches Some((text, _)) && {
                ||| name == tag("u8") && parse_u8_spec(encode_utf8(text)) is None
                ||| name == tag("s16") && parse_i16_spec(encode_utf8(text)) is None
                ||| name == tag("u32") && parse_u32_spec(encode_utf8(text)) is None
            })
            &&& value_at(tokens, pos) == Err::<(ValueView, int), _>(Failure::UnknownValueType)
                <==> !is_value_tag(name)
            &&& value_at(tokens, pos) matches Ok((value, next)) ==> element_text(
                tokens,
                pos + 1,
                name,
            ) matches Some((text, end)) && end == next && typed_value(name, text) == Ok::<
                _,
                Failure,
            >(value)
        },
{
    lemma_value_tags_differ();
}

/// Where the fields of record `i` begin, in a list whose first record is
/// open at `pos`.
pub open spec fn record_at(tokens: Seq<Token>, pos: int, i: nat) -> int
    decreases i,
{
    if i == 0 {
        pos
    } else {
        match fields_at(tokens, pos) {
            Ok((_, next)) => record_at(tokens, next + 1, (i - 1) as nat),
            Err(_) => pos,
        }
    }
}

/// The first record of a decoded list has the key that the list was entered
/// with. Every further record has the key that the start tag right before its
/// own fields carries, and no other record's; the fields of each are those
/// that stand between its start tag and its end tag.
pub proof fn lemma_record_keys(tokens: Seq<Token>, pos: int, key: u32, i: nat)
    requires
        0 <= pos,
        items_at(tokens, pos, key) matches Ok((items, _)) && i < items.len(),
    ensures
        items_at(tokens, pos, key) matches Ok((items, _)) && {
            let start = record_at(tokens, pos, i);
            &&& pos <= start < tokens.len()
            &&& i == 0 ==> items[0].key == key
            &&& i > 0 ==> (token_at(tokens, start - 1) matches Token::Start { name, attribute }
                && name == tag("item") && key_of(attribute) == Ok::<_, Failure>(
                items[i as int].key,
            ))
            &&& fields_at(tokens, start) matches Ok((fields, _)) && fields == items[i as int].fields
        },
    decreases i,
{
    lemma_fields_advance(tokens, pos);
    if i > 0 {
        if let Ok((_, next)) = fields_at(tokens, pos) {
            if let Token::Start { name, attribute } = token_at(tokens, next) {
                if let Ok(next_key) = key_of(attribute) {
                    lemma_record_keys(tokens, next + 1, next_key, (i - 1) as nat);
                }
            }
        }
    }
}

/// Where notification `i` begins, in a batch whose first notification is
/// open at `pos`.
pub open spec fn notification_at(tokens: Seq<Token>, pos: int, i: nat) -> int
    decreases i,
{
    if i == 0 {
        pos
    } else {
        match value_at(tokens, pos + 1) {
            Ok((_, next)) => notification_at(tokens, next + 3, (i - 1) as nat),
            Err(_) => pos,
        }
    }
}

/// The first notification of a decoded batch is about the node that the
/// batch was entered with. Every further one is about the node that the start
/// tag right before it carries; the value of each is the one that it holds.
pub proof fn lemma_notification_nodes(tokens: Seq<Token>, pos: int, node: Node, i: nat)
    requires
        0 <= pos,
        notifications_at(tokens, pos, node) matches Ok((batch, _)) && i < batch.len(),
    ensures
        notifications_at(tokens, pos, node) matches Ok((batch, _)) && {
            let start = notification_at(tokens, pos, i);
            &&& pos <= start < tokens.len()
            &&& i == 0 ==> batch[0].node == node
            &&& i > 0 ==> (token_at(tokens, start - 1) matches Token::Start { name, attribute }
                && name == tag("notify") && node_of(attribute) == Ok::<_, Failure>(
                batch[i as int].node,
            ))
            &&& value_at(tokens, start + 1) matches Ok((value, _)) && value == batch[i as int].value
        },
    decreases i,
{
    lemma_value_advances(tokens, pos + 1);
    if i > 0 {
        if let Ok((_, next)) = value_at(tokens, pos + 1) {
            if let Token::Start { name, attribute } = token_at(tokens, next + 2) {
                if let Ok(next_node) = node_of(attribute) {
                    lemma_notification_nodes(tokens, next + 3, next_node, (i - 1) as nat);
                }
            }
        }
    }
}

/// A batch ends with the end tag of the frame, and the decoder reads nothing
/// after it: every document that is the same up to that tag holds the same
/// batch.
pub proof fn lemma_batch_ends_with_frame(
    tokens: Seq<Token>,
    other: Seq<Token>,
    pos: int,
    node: Node,
)
    requires
        0 <= pos,
        notifications_at(tokens, pos, node) matches Ok((_, end)) && agree(tokens, other, end),
    ensures
        notifications_at(tokens, pos, node) matches Ok((_, end)) && {
            &&& pos < end <= tokens.len()
            &&& tokens[end - 1] == Token::End { name: tag("fsapiResponse") }
            &&& notifications_at(other, pos, node) == notifications_at(tokens, pos, node)
        },
    decreases tokens.len() - pos,
{
    lemma_value_advances(tokens, pos + 1);
    if let Ok((_, next)) = value_at(tokens, pos + 1) {
        if let Token::Start { name, attribute } = token_at(tokens, next + 2) {
            if let Ok(next_node) = node_of(attribute) {
                lemma_batch_ends_with_frame(tokens, other, next + 3, next_node);
            }
        }
        lemma_value_reads_no_further(tokens, other, pos + 1);
    }
}

} // verus!
