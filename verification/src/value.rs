//! What a response frame can carry.

use crate::node::Node;
use crate::number::{decimal, decimal_spec, signed_decimal};
use vstd::prelude::*;

verus! {

/// The handle of a session. The device honours one at a time: a new session
/// ends the one before it.
#[derive(Debug, Clone, Copy, PartialEq, Eq, Structural)]
pub struct SessionID(pub u32);

/// A typed scalar. The type is the one that the element's tag names.
#[derive(Debug, PartialEq, Eq)]
pub enum Value {
    /// `c8_array`: text.
    Text(String),
    /// `u8`
    U8(u8),
    /// `s16`
    S16(i16),
    /// `u32`
    U32(u32),
    /// `array`: binary content, passed through as it is written.
    Array(String),
}

/// A named value of a record.
#[derive(Debug, PartialEq, Eq)]
pub struct Field {
    pub name: String,
    pub value: Value,
}

/// A record of a list: its key and its fields, in the order of the wire.
#[derive(Debug, PartialEq, Eq)]
pub struct Item {
    pub key: u32,
    pub fields: Vec<Field>,
}

/// A change that the device reports: the node and its new value.
#[derive(Debug, PartialEq, Eq)]
pub struct Notification {
    pub node: Node,
    pub value: Value,
}

/// The status of a response.
#[derive(Debug, Clone, Copy, PartialEq, Eq, Structural)]
pub enum ResponseStatus {
    /// The command has been executed.
    Okay,
    /// The command has not been executed: the value does not pass the
    /// device's validation.
    Fail,
    /// The node is read-only.
    PacketBad,
    /// The node belongs to a mode that is not active.
    NodeBlocked,
    /// There is no such node.
    NodeDoesNotExist,
    /// Nothing happened while the request was held.
    Timeout,
    /// The list has no entry left.
    ListEnd,
}

/// The payload of a response.
#[derive(Debug, PartialEq, Eq)]
pub enum Data {
    /// A scalar, in answer to `GET`.
    Value(Value),
    /// Records, in answer to `LIST_GET_NEXT`.
    Items(Vec<Item>),
    /// A session, in answer to `CREATE_SESSION`.
    SessionID(SessionID),
    /// Changes, in answer to `GET_NOTIFIES`.
    Notify(Vec<Notification>),
}

/// A decoded response frame. A status other than `Okay` comes without data.
#[derive(Debug, PartialEq, Eq)]
pub struct Response {
    pub status: ResponseStatus,
    pub data: Option<Data>,
}

/// The mathematical value of a [`Value`].
pub enum ValueView {
    Text(Seq<char>),
    U8(u8),
    S16(i16),
    U32(u32),
    Array(Seq<char>),
}

/// The mathematical value of a [`Field`].
pub struct FieldView {
    pub name: Seq<char>,
    pub value: ValueView,
}

/// The mathematical value of an [`Item`].
pub struct ItemView {
    pub key: u32,
    pub fields: Seq<FieldView>,
}

/// The mathematical value of a [`Notification`].
pub struct NotificationView {
    pub node: Node,
    pub value: ValueView,
}

/// The mathematical value of a [`Data`].
pub enum DataView {
    Value(ValueView),
    Items(Seq<ItemView>),
    SessionID(SessionID),
    Notify(Seq<NotificationView>),
}

/// The mathematical value of a [`Response`].
pub struct ResponseView {
    pub status: ResponseStatus,
    pub data: Option<DataView>,
}

impl View for Value {
    type V = ValueView;

    open spec fn view(&self) -> ValueView {
        match *self {
            Value::Text(text) => ValueView::Text(text@),
            Value::U8(v) => ValueView::U8(v),
            Value::S16(v) => ValueView::S16(v),
            Value::U32(v) => ValueView::U32(v),
            Value::Array(content) => ValueView::Array(content@),
        }
    }
}

impl ValueView {
    /// The value as text: a text as it is, a number in decimal.
    pub open spec fn text(self) -> Seq<char> {
        match self {
            ValueView::Text(text) => text,
            ValueView::U8(v) => decimal_spec(v as int),
            ValueView::S16(v) => decimal_spec(v as int),
            ValueView::U32(v) => decimal_spec(v as int),
            ValueView::Array(content) => content,
        }
    }
}

impl Value {
    /// The value as text: a text as it is, a number in decimal.
    pub fn to_string(&self) -> (text: String)
        ensures
            text@ == self@.text(),
    {
        match self {
            Value::Text(text) => text.clone(),
            Value::U8(v) => decimal(*v as u64),
            Value::S16(v) => signed_decimal(*v as i64),
            Value::U32(v) => decimal(*v as u64),
            Value::Array(content) => content.clone(),
        }
    }
}

impl SessionID {
    /// The handle in decimal, as it goes into a request.
    pub fn to_string(&self) -> (text: String)
        ensures
            text@ == decimal_spec(self.0 as int),
    {
        decimal(self.0 as u64)
    }
}

impl View for Field {
    type V = FieldView;

    open spec fn view(&self) -> FieldView {
        FieldView { name: self.name@, value: self.value@ }
    }
}

/// The values of a sequence of fields.
pub open spec fn fields_view(fields: Seq<Field>) -> Seq<FieldView> {
    fields.map_values(|f: Field| f@)
}

impl View for Item {
    type V = ItemView;

    open spec fn view(&self) -> ItemView {
        ItemView { key: self.key, fields: fields_view(self.fields@) }
    }
}

/// The values of a sequence of records.
pub open spec fn items_view(items: Seq<Item>) -> Seq<ItemView> {
    items.map_values(|i: Item| i@)
}

impl View for Notification {
    type V = NotificationView;

    open spec fn view(&self) -> NotificationView {
        NotificationView { node: self.node, value: self.value@ }
    }
}

/// The values of a sequence of notifications.
pub open spec fn notifications_view(batch: Seq<Notification>) -> Seq<NotificationView> {
    batch.map_values(|n: Notification| n@)
}

impl View for Data {
    type V = DataView;

    open spec fn view(&self) -> DataView {
        match *self {
            Data::Value(value) => DataView::Value(value@),
            Data::Items(items) => DataView::Items(items_view(items@)),
            Data::SessionID(id) => DataView::SessionID(id),
            Data::Notify(batch) => DataView::Notify(notifications_view(batch@)),
        }
    }
}

/// The value of a payload that may be absent.
pub open spec fn data_view(data: Option<Data>) -> Option<DataView> {
    match data {
        Some(d) => Some(d@),
        None => None,
    }
}

impl ResponseView {
    /// Only the status `Okay` comes with data.
    pub open spec fn well_formed(self) -> bool {
        self.status != ResponseStatus::Okay ==> self.data is None
    }
}

impl View for Response {
    type V = ResponseView;

    open spec fn view(&self) -> ResponseView {
        ResponseView { status: self.status, data: data_view(self.data) }
    }
}

} // verus!
