//! The verbs of the protocol. Each is one request and one reply: a function
//! here writes the request's URL, and another reads what came back. Fetching
//! the one for the other is the caller's part.

use crate::error::{Error, TransportError};
use crate::grammar::response_of;
use crate::node::Node;
use crate::number::decimal_spec;
use crate::value::{
    Data, DataView, Item, ItemView, Notification, NotificationView, Response, ResponseStatus,
    ResponseView, SessionID, Value, ValueView, items_view, notifications_view,
};
use crate::xml::xml_events;
use vstd::prelude::*;
use vstd::string::StringExecFns;

verus! {

/// The client of the protocol. It holds nothing: every verb is told the host
/// and the pin.
#[derive(Debug)]
pub struct FsApi();

/// The most records that one request for a list asks for.
pub const MAX_ITEMS: u32 = 65536;

/// `http://{host}/fsapi/{verb}`
pub open spec fn base_url(host: Seq<char>, verb: Seq<char>) -> Seq<char> {
    "http://"@ + host + "/fsapi/"@ + verb
}

/// The URL that reads `node`.
pub open spec fn get_url_spec(node: Node, host: Seq<char>, pin: Seq<char>) -> Seq<char> {
    base_url(host, "GET"@) + "/"@ + node.path() + "?pin="@ + pin
}

/// The URL that writes `param` to `node`.
pub open spec fn set_url_spec(node: Node, param: Seq<char>, host: Seq<char>, pin: Seq<char>) -> Seq<
    char,
> {
    base_url(host, "SET"@) + "/"@ + node.path() + "?pin="@ + pin + "&value="@ + param
}

/// The URL that asks for the list under `node` from its start, within a
/// session or without one.
pub open spec fn get_item_list_url_spec(
    node: Node,
    session_id: Option<SessionID>,
    host: Seq<char>,
    pin: Seq<char>,
) -> Seq<char> {
    let head = base_url(host, "LIST_GET_NEXT"@) + "/"@ + node.path() + "/-1?pin="@ + pin;
    let session = match session_id {
        Some(id) => "&SID="@ + decimal_spec(id.0 as int),
        None => Seq::<char>::empty(),
    };
    head + session + "&maxItems="@ + decimal_spec(MAX_ITEMS as int)
}

/// The URL that waits for the notifications of a session.
pub open spec fn get_notifications_url_spec(
    session_id: SessionID,
    host: Seq<char>,
    pin: Seq<char>,
) -> Seq<char> {
    base_url(host, "GET_NOTIFIES"@) + "?pin="@ + pin + "&sid="@ + decimal_spec(
        session_id.0 as int,
    )
}

/// The URL that creates a session.
pub open spec fn create_session_url_spec(host: Seq<char>, pin: Seq<char>) -> Seq<char> {
    base_url(host, "CREATE_SESSION"@) + "?pin="@ + pin
}

/// The URL that ends a session.
pub open spec fn delete_session_url_spec(
    session_id: SessionID,
    host: Seq<char>,
    pin: Seq<char>,
) -> Seq<char> {
    base_url(host, "DELETE_SESSION"@) + "?pin="@ + pin + "&sid="@ + decimal_spec(
        session_id.0 as int,
    )
}

/// What was fetched, as a mathematical value.
pub open spec fn reply_view(reply: Result<String, TransportError>) -> Result<
    Seq<char>,
    TransportError,
> {
    match reply {
        Ok(text) => Ok(text@),
        Err(failure) => Err(failure),
    }
}

/// The response in what was fetched. A transport failure is the error that
/// it maps to; a frame that does not decode is an internal error.
pub open spec fn response_in(reply: Result<Seq<char>, TransportError>) -> Result<
    ResponseView,
    Error,
> {
    match reply {
        Err(failure) => Err(Error::of_transport(failure)),
        Ok(text) => match response_of(xml_events(text)) {
            Ok(response) => Ok(response),
            Err(_) => Err(Error::InternalError),
        },
    }
}

/// What a verb makes of what was fetched, given what it makes of a response.
pub open spec fn through<T>(
    reply: Result<Seq<char>, TransportError>,
    verb: spec_fn(ResponseView) -> Result<T, Error>,
) -> Result<T, Error> {
    match response_in(reply) {
        Err(e) => Err(e),
        Ok(response) => verb(response),
    }
}

/// `GET` succeeds on the status `FS_OK` with a value.
pub open spec fn get_spec(response: ResponseView) -> Result<ValueView, Error> {
    if response.status != ResponseStatus::Okay {
        Err(Error::InvalidStatus)
    } else {
        match response.data {
            Some(DataView::Value(value)) => Ok(value),
            _ => Err(Error::InvalidData),
        }
    }
}

/// `SET` and `DELETE_SESSION` succeed on the status `FS_OK` without data.
pub open spec fn done_spec(response: ResponseView) -> Result<(), Error> {
    if response.status != ResponseStatus::Okay {
        Err(Error::InvalidStatus)
    } else {
        match response.data {
            None => Ok(()),
            _ => Err(Error::InvalidData),
        }
    }
}

/// `LIST_GET_NEXT` succeeds on the status `FS_OK` with records. The status
/// `FS_FAIL` says that the list is not to be had now.
pub open spec fn get_item_list_spec(response: ResponseView) -> Result<Seq<ItemView>, Error> {
    match response.status {
        ResponseStatus::Okay => match response.data {
            Some(DataView::Items(items)) => Ok(items),
            _ => Err(Error::InvalidData),
        },
        ResponseStatus::Fail => Err(Error::Fail),
        _ => Err(Error::InvalidStatus),
    }
}

/// `GET_NOTIFIES` succeeds on the status `FS_OK` with notifications, and on
/// `FS_TIMEOUT` with none: nothing has changed.
pub open spec fn get_notifications_spec(response: ResponseView) -> Result<
    Option<Seq<NotificationView>>,
    Error,
> {
    match response.status {
        ResponseStatus::Okay => match response.data {
            Some(DataView::Notify(batch)) => Ok(Some(batch)),
            _ => Err(Error::InvalidData),
        },
        ResponseStatus::Timeout => Ok(None),
        _ => Err(Error::InvalidStatus),
    }
}

/// `CREATE_SESSION` succeeds on the status `FS_OK` with a session.
pub open spec fn create_session_spec(response: ResponseView) -> Result<SessionID, Error> {
    if response.status != ResponseStatus::Okay {
        Err(Error::InvalidStatus)
    } else {
        match response.data {
            Some(DataView::SessionID(id)) => Ok(id),
            _ => Err(Error::InvalidData),
        }
    }
}

/// `http://{host}/fsapi/{verb}`
fn base(host: &str, verb: &str) -> (url: String)
    ensures
        url@ == base_url(host@, verb@),
{
    let mut url = "http://".to_string();
    url.append(host);
    url.append("/fsapi/");
    url.append(verb);
    url
}

impl FsApi {
    /// The URL that reads `node`.
    pub fn get_url(node: Node, host: &str, pin: &str) -> (url: String)
        ensures
            url@ == get_url_spec(node, host@, pin@),
    {
        let mut url = base(host, "GET");
        url.append("/");
        url.append(node.as_str());
        url.append("?pin=");
        url.append(pin);
        url
    }

    /// The URL that writes `param` to `node`.
    pub fn set_url(node: Node, param: &str, host: &str, pin: &str) -> (url: String)
        ensures
            url@ == set_url_spec(node, param@, host@, pin@),
    {
        let mut url = base(host, "SET");
        url.append("/");
        url.append(node.as_str());
        url.append("?pin=");
        url.append(pin);
        url.append("&value=");
        url.append(param);
        url
    }

    /// The URL that asks for the list under `node`: the whole of it in one
    /// page, from its start.
    pub fn get_item_list_url(node: Node, session_id: Option<SessionID>, host: &str, pin: &str) -> (url:
        String)
        ensures
            url@ == get_item_list_url_spec(node, session_id, host@, pin@),
    {
        let mut url = base(host, "LIST_GET_NEXT");
        url.append("/");
        url.append(node.as_str());
        url.append("/-1?pin=");
        url.append(pin);
        if let Some(id) = session_id {
            url.append("&SID=");
            url.append(id.to_string().as_str());
        }
        url.append("&maxItems=");
        url.append(crate::number::decimal(MAX_ITEMS as u64).as_str());
        url
    }

    /// The URL that waits for the notifications of a session.
    pub fn get_notifications_url(session_id: SessionID, host: &str, pin: &str) -> (url: String)
        ensures
            url@ == get_notifications_url_spec(session_id, host@, pin@),
    {
        let mut url = base(host, "GET_NOTIFIES");
        url.append("?pin=");
        url.append(pin);
        url.append("&sid=");
        url.append(session_id.to_string().as_str());
        url
    }

    /// The URL that creates a session.
    pub fn create_session_url(host: &str, pin: &str) -> (url: String)
        ensures
            url@ == create_session_url_spec(host@, pin@),
    {
        let mut url = base(host, "CREATE_SESSION");
        url.append("?pin=");
        url.append(pin);
        url
    }

    /// The URL that ends a session.
    pub fn delete_session_url(session_id: SessionID, host: &str, pin: &str) -> (url: String)
        ensures
            url@ == delete_session_url_spec(session_id, host@, pin@),
    {
        let mut url = base(host, "DELETE_SESSION");
        url.append("?pin=");
        url.append(pin);
        url.append("&sid=");
        url.append(session_id.to_string().as_str());
        url
    }

    /// The response in what was fetched.
    pub fn receive(reply: Result<String, TransportError>) -> (r: Result<Response, Error>)
        ensures
            match r {
                Ok(response) => response_in(reply_view(reply)) == Ok::<_, Error>(response@),
                Err(e) => response_in(reply_view(reply)) == Err::<ResponseView, _>(e),
            },
    {
        match reply {
            Err(failure) => Err(Error::from(failure)),
            Ok(text) => match Response::from_str(text.as_str()) {
                Ok(response) => Ok(response),
                Err(e) => Err(Error::from(e)),
            },
        }
    }

    /// The value in a response to `GET`.
    pub fn get_from(response: Response) -> (r: Result<Value, Error>)
        ensures
            match r {
                Ok(value) => get_spec(response@) == Ok::<_, Error>(value@),
                Err(e) => get_spec(response@) == Err::<ValueView, _>(e),
            },
    {
        match response.status {
            ResponseStatus::Okay => match response.data {
                Some(Data::Value(value)) => Ok(value),
                _ => Err(Error::InvalidData),
            },
            _ => Err(Error::InvalidStatus),
        }
    }

    /// Whether a response to `SET` or to `DELETE_SESSION` says that it is
    /// done.
    pub fn done_from(response: Response) -> (r: Result<(), Error>)
        ensures
            r == done_spec(response@),
    {
        match response.status {
            ResponseStatus::Okay => match response.data {
                None => Ok(()),
                _ => Err(Error::InvalidData),
            },
            _ => Err(Error::InvalidStatus),
        }
    }

    /// The records in a response to `LIST_GET_NEXT`.
    pub fn get_item_list_from(response: Response) -> (r: Result<Vec<Item>, Error>)
        ensures
            match r {
                Ok(items) => get_item_list_spec(response@) == Ok::<_, Error>(items_view(items@)),
                Err(e) => get_item_list_spec(response@) == Err::<Seq<ItemView>, _>(e),
            },
    {
        match response.status {
            ResponseStatus::Okay => match response.data {
                Some(Data::Items(items)) => Ok(items),
                _ => Err(Error::InvalidData),
            },
            ResponseStatus::Fail => Err(Error::Fail),
            _ => Err(Error::InvalidStatus),
        }
    }

    /// The notifications in a response to `GET_NOTIFIES`; `None` where the
    /// device reports that nothing has changed.
    pub fn get_notifications_from(response: Response) -> (r: Result<
        Option<Vec<Notification>>,
        Error,
    >)
        ensures
            match r {
                Ok(Some(batch)) => get_notifications_spec(response@) == Ok::<_, Error>(
                    Some(notifications_view(batch@)),
                ),
                Ok(None) => get_notifications_spec(response@) == Ok::<
                    Option<Seq<NotificationView>>,
                    Error,
                >(None),
                Err(e) => get_notifications_spec(response@) == Err::<
                    Option<Seq<NotificationView>>,
                    _,
                >(e),
            },
    {
        match response.status {
            ResponseStatus::Okay => match response.data {
                Some(Data::Notify(batch)) => Ok(Some(batch)),
                _ => Err(Error::InvalidData),
            },
            ResponseStatus::Timeout => Ok(None),
            _ => Err(Error::InvalidStatus),
        }
    }

    /// The session in a response to `CREATE_SESSION`.
    pub fn create_session_from(response: Response) -> (r: Result<SessionID, Error>)
        ensures
            r == create_session_spec(response@),
    {
        match response.status {
            ResponseStatus::Okay => match response.data {
                Some(Data::SessionID(id)) => Ok(id),
                _ => Err(Error::InvalidData),
            },
            _ => Err(Error::InvalidStatus),
        }
    }

    /// Reads the reply to `GET`: the value of the node.
    pub fn get(reply: Result<String, TransportError>) -> (r: Result<Value, Error>)
        ensures
            match r {
                Ok(value) => through(reply_view(reply), |x: ResponseView| get_spec(x)) == Ok::<
                    _,
                    Error,
                >(value@),
                Err(e) => through(reply_view(reply), |x: ResponseView| get_spec(x)) == Err::<
                    ValueView,
                    _,
                >(e),
            },
    {
        match FsApi::receive(reply) {
            Ok(response) => FsApi::get_from(response),
            Err(e) => Err(e),
        }
    }

    /// Reads the reply to `SET`.
    pub fn set(reply: Result<String, TransportError>) -> (r: Result<(), Error>)
        ensures
            r == through(reply_view(reply), |x: ResponseView| done_spec(x)),
    {
        match FsApi::receive(reply) {
            Ok(response) => FsApi::done_from(response),
            Err(e) => Err(e),
        }
    }

    /// Reads the reply to `LIST_GET_NEXT`: the records of the list.
    pub fn get_item_list(reply: Result<String, TransportError>) -> (r: Result<Vec<Item>, Error>)
        ensures
            match r {
                Ok(items) => through(reply_view(reply), |x: ResponseView| get_item_list_spec(x))
                    == Ok::<_, Error>(items_view(items@)),
                Err(e) => through(reply_view(reply), |x: ResponseView| get_item_list_spec(x))
                    == Err::<Seq<ItemView>, _>(e),
            },
    {
        match FsApi::receive(reply) {
            Ok(response) => FsApi::get_item_list_from(response),
            Err(e) => Err(e),
        }
    }

    /// Reads the reply to `GET_NOTIFIES`: what has changed, or `None` where
    /// the device held the request and nothing changed. The caller asks
    /// again either way.
    pub fn get_notifications(reply: Result<String, TransportError>) -> (r: Result<
        Option<Vec<Notification>>,
        Error,
    >)
        ensures
            match r {
                Ok(Some(batch)) => through(
                    reply_view(reply),
                    |x: ResponseView| get_notifications_spec(x),
                ) == Ok::<_, Error>(Some(notifications_view(batch@))),
                Ok(None) => through(reply_view(reply), |x: ResponseView| get_notifications_spec(x))
                    == Ok::<Option<Seq<NotificationView>>, Error>(None),
                Err(e) => through(reply_view(reply), |x: ResponseView| get_notifications_spec(x))
                    == Err::<Option<Seq<NotificationView>>, _>(e),
            },
    {
        match FsApi::receive(reply) {
            Ok(response) => FsApi::get_notifications_from(response),
            Err(e) => Err(e),
        }
    }

    /// Reads the reply to `CREATE_SESSION`: the new session. Whatever
    /// session there was before is no longer valid.
    pub fn create_session(reply: Result<String, TransportError>) -> (r: Result<SessionID, Error>)
        ensures
            r == through(reply_view(reply), |x: ResponseView| create_session_spec(x)),
    {
        match FsApi::receive(reply) {
            Ok(response) => FsApi::create_session_from(response),
            Err(e) => Err(e),
        }
    }

    /// Reads the reply to `DELETE_SESSION`.
    pub fn delete_session(reply: Result<String, TransportError>) -> (r: Result<(), Error>)
        ensures
            r == through(reply_view(reply), |x: ResponseView| done_spec(x)),
    {
        match FsApi::receive(reply) {
            Ok(response) => FsApi::done_from(response),
            Err(e) => Err(e),
        }
    }
}

/// The session of a client: none, or the one that the device honours. It
/// begins with `CREATE_SESSION` and ends with `DELETE_SESSION`.
#[derive(Debug, Clone, Copy, PartialEq, Eq, Structural)]
pub enum Session {
    NoSession,
    Active(SessionID),
}

impl Session {
    /// The state before any session is created.
    pub fn new() -> (session: Session)
        ensures
            session == Session::NoSession,
    {
        Session::NoSession
    }

    /// The handle of the active session.
    pub fn id(&self) -> (id: Option<SessionID>)
        ensures
            id == match *self {
                Session::NoSession => None::<SessionID>,
                Session::Active(id) => Some(id),
            },
    {
        match self {
            Session::NoSession => None,
            Session::Active(id) => Some(*id),
        }
    }

    /// Reads the reply to `CREATE_SESSION`. On success the new session is
    /// the active one; otherwise nothing changes.
    pub fn create(&mut self, reply: Result<String, TransportError>) -> (r: Result<SessionID, Error>)
        ensures
            r == through(reply_view(reply), |x: ResponseView| create_session_spec(x)),
            *final(self) == match r {
                Ok(id) => Session::Active(id),
                Err(_) => *old(self),
            },
    {
        let r = FsApi::create_session(reply);
        if let Ok(id) = r {
            *self = Session::Active(id);
        }
        r
    }

    /// Reads the reply to `DELETE_SESSION`. On success no session is active;
    /// otherwise nothing changes.
    pub fn delete(&mut self, reply: Result<String, TransportError>) -> (r: Result<(), Error>)
        ensures
            r == through(reply_view(reply), |x: ResponseView| done_spec(x)),
            *final(self) == match r {
                Ok(_) => Session::NoSession,
                Err(_) => *old(self),
            },
    {
        let r = FsApi::delete_session(reply);
        if let Ok(_) = r {
            *self = Session::NoSession;
        }
        r
    }
}

} // verus!
