//! One authenticated call, as a state machine.
//!
//! A call logs in, opens a transport that carries the session, sends the
//! request and hands the raw response to the caller. This module decides;
//! the caller does the network's part: it carries out each [`Action`] and
//! reports what happened as an [`Event`]. Nothing is kept between calls.

use vstd::prelude::*;
use vstd::string::*;
use crate::client::{Credentials, Field, ProxmoxClient};
use crate::format::{cookie, format_cookie, format_login_name, format_origin, format_uri, login_name, origin, uri};

verus! {

/// The path of the REST API on the server.
pub const PROXMOX_REST_API_PATH: &'static str = "api2/json";

/// The path of the login resource on the server.
pub const PROXMOX_LOGIN_PATH: &'static str = "api2/json/access/ticket";

/// The name of the cookie that carries the ticket.
pub const PVE_AUTH_COOKIE_KEY: &'static str = "PVEAuthCookie";

/// The name of the header that carries the anti-forgery token.
pub const CSRF_PREVENTION_TOKEN_KEY: &'static str = "CSRFPreventionToken";

/// Whether the transports accept a certificate that does not validate, as
/// the self-signed one of a server on a private management network.
pub const ACCEPT_INVALID_CERTS: bool = true;

/// The message for a method that is none of the four.
pub const HTTP_METHOD_ERROR: &'static str = "http method should be GET, POST, PUT or DELETE";

/// The four methods that a call can use.
#[derive(Clone, Copy, PartialEq, Eq, Debug, Structural)]
pub enum Method {
    Get,
    Post,
    Put,
    Delete,
}

/// Where the payload of a request is written.
#[derive(Clone, Copy, PartialEq, Eq, Debug, Structural)]
pub enum Encoding {
    /// As parameters in the URL's query.
    Query,
    /// As a form in the body.
    Form,
}

impl Method {
    /// The method's name on the wire.
    pub open spec fn name(self) -> Seq<char> {
        match self {
            Method::Get => "GET"@,
            Method::Post => "POST"@,
            Method::Put => "PUT"@,
            Method::Delete => "DELETE"@,
        }
    }

    /// The method that a name stands for, if it is one of the four.
    pub open spec fn named(name: Seq<char>) -> Option<Method> {
        if name == "GET"@ {
            Some(Method::Get)
        } else if name == "POST"@ {
            Some(Method::Post)
        } else if name == "PUT"@ {
            Some(Method::Put)
        } else if name == "DELETE"@ {
            Some(Method::Delete)
        } else {
            None
        }
    }

    /// Where the method carries its payload: GET in the query, the others in a form.
    pub open spec fn encoding(self) -> Encoding {
        if self == Method::Get {
            Encoding::Query
        } else {
            Encoding::Form
        }
    }

    /// Returns the method's name on the wire.
    pub fn as_str(self) -> (r: &'static str)
        ensures
            r@ == self.name(),
    {
        match self {
            Method::Get => "GET",
            Method::Post => "POST",
            Method::Put => "PUT",
            Method::Delete => "DELETE",
        }
    }

    /// Returns where the method carries its payload.
    pub fn payload_encoding(self) -> (r: Encoding)
        ensures
            r == self.encoding(),
            r == Encoding::Query <==> self == Method::Get,
    {
        match self {
            Method::Get => Encoding::Query,
            Method::Post | Method::Put | Method::Delete => Encoding::Form,
        }
    }

    /// Reads a method from its name. Any name but GET, POST, PUT and DELETE
    /// is refused with the fixed message `HTTP_METHOD_ERROR`.
    pub fn from_name(name: &str) -> (r: Result<Method, String>)
        ensures
            match Method::named(name@) {
                Some(method) => r == Ok::<Method, String>(method),
                None => r is Err && r->Err_0@ == HTTP_METHOD_ERROR@,
            },
    {
        let given = String::from_str(name);
        if given == String::from_str("GET") {
            Ok(Method::Get)
        } else if given == String::from_str("POST") {
            Ok(Method::Post)
        } else if given == String::from_str("PUT") {
            Ok(Method::Put)
        } else if given == String::from_str("DELETE") {
            Ok(Method::Delete)
        } else {
            Err(String::from_str(HTTP_METHOD_ERROR))
        }
    }
}

/// Every method is read back from its own name, and a name that is read as
/// a method is that method's name.
pub proof fn law_method_names(method: Method, name: Seq<char>)
    ensures
        Method::named(method.name()) == Some(method),
        Method::named(name) matches Some(m) ==> m.name() == name,
        Method::named(name) is None <==> name != "GET"@ && name != "POST"@ && name != "PUT"@ && name
            != "DELETE"@,
{
    reveal_strlit("GET");
    reveal_strlit("POST");
    reveal_strlit("PUT");
    reveal_strlit("DELETE");
    assert("GET"@.len() == 3 && "POST"@.len() == 4 && "PUT"@.len() == 3 && "DELETE"@.len() == 6);
    assert("GET"@[0] == 'G' && "PUT"@[0] == 'P');
}

/// Why a call failed.
#[derive(Clone, Copy, PartialEq, Eq, Debug, Structural)]
pub enum RequestError {
    /// The login did not yield a ticket and a token: check the credentials.
    Authentication,
    /// The request could not be sent or completed: check the network.
    Transport,
}

/// Where a call stands.
#[derive(Clone, Copy, PartialEq, Eq, Debug, Structural)]
pub enum Phase {
    Unauthenticated,
    LoggingIn,
    Authenticated,
    Dispatching,
    Completed,
    Failed,
}

impl Phase {
    /// How far a call in this phase has come.
    pub open spec fn rank(self) -> nat {
        match self {
            Phase::Unauthenticated => 0,
            Phase::LoggingIn => 1,
            Phase::Authenticated => 2,
            Phase::Dispatching => 3,
            Phase::Completed => 4,
            Phase::Failed => 4,
        }
    }

    /// A call in this phase has ended.
    pub open spec fn is_final(self) -> bool {
        self == Phase::Completed || self == Phase::Failed
    }
}

/// What the network did, as the caller reports it.
#[derive(Debug, PartialEq, Eq)]
pub enum Event {
    /// The caller asks for the call to begin.
    Start,
    /// The login was answered with a JSON body; a field that the body lacks is `None`.
    LoginReplied { ticket: Option<String>, csrf_prevention_token: Option<String> },
    /// The login was answered with a body that is no JSON.
    LoginUnreadable,
    /// The login request failed in transport.
    LoginFailed,
    /// The transport that carries the session is ready.
    TransportReady,
    /// The transport that carries the session could not be made.
    TransportFailed,
    /// The server answered the request.
    Responded,
    /// The request failed in transport.
    SendFailed,
}

/// An `Event` as plain text.
pub enum EventModel {
    Start,
    LoginReplied { ticket: Option<Seq<char>>, csrf_prevention_token: Option<Seq<char>> },
    LoginUnreadable,
    LoginFailed,
    TransportReady,
    TransportFailed,
    Responded,
    SendFailed,
}

impl View for Event {
    type V = EventModel;

    open spec fn view(&self) -> EventModel {
        match *self {
            Event::Start => EventModel::Start,
            Event::LoginReplied { ticket, csrf_prevention_token } => EventModel::LoginReplied {
                ticket: crate::client::text(ticket),
                csrf_prevention_token: crate::client::text(csrf_prevention_token),
            },
            Event::LoginUnreadable => EventModel::LoginUnreadable,
            Event::LoginFailed => EventModel::LoginFailed,
            Event::TransportReady => EventModel::TransportReady,
            Event::TransportFailed => EventModel::TransportFailed,
            Event::Responded => EventModel::Responded,
            Event::SendFailed => EventModel::SendFailed,
        }
    }
}

/// What the caller is to do next.
#[derive(Debug, PartialEq, Eq)]
pub enum Action {
    /// Post the form `username`, `password` to `url` and report the answer.
    /// The transport accepts a certificate that does not validate if
    /// `accept_invalid_certs` says so.
    Login { url: String, username: String, password: String, accept_invalid_certs: bool },
    /// Make the transport of the session: every request carries the header
    /// `header_name: header_value`, and the cookie store holds `cookie` for
    /// `origin`. It accepts a certificate that does not validate if
    /// `accept_invalid_certs` says so.
    OpenSession {
        header_name: String,
        header_value: String,
        cookie: String,
        origin: String,
        accept_invalid_certs: bool,
    },
    /// Send the request to `url` with the payload written as `encoding` says.
    Send { method: Method, url: String, encoding: Encoding },
    /// Hand the raw response to the caller.
    Deliver,
    /// Hand the error to the caller.
    Fail(RequestError),
}

/// An `Action` as plain text.
pub enum ActionModel {
    Login { url: Seq<char>, username: Seq<char>, password: Seq<char>, accept_invalid_certs: bool },
    OpenSession {
        header_name: Seq<char>,
        header_value: Seq<char>,
        cookie: Seq<char>,
        origin: Seq<char>,
        accept_invalid_certs: bool,
    },
    Send { method: Method, url: Seq<char>, encoding: Encoding },
    Deliver,
    Fail(RequestError),
}

impl View for Action {
    type V = ActionModel;

    open spec fn view(&self) -> ActionModel {
        match *self {
            Action::Login { url, username, password, accept_invalid_certs } => ActionModel::Login {
                url: url@,
                username: username@,
                password: password@,
                accept_invalid_certs,
            },
            Action::OpenSession { header_name, header_value, cookie, origin, accept_invalid_certs } => {
                ActionModel::OpenSession {
                    header_name: header_name@,
                    header_value: header_value@,
                    cookie: cookie@,
                    origin: origin@,
                    accept_invalid_certs,
                }
            },
            Action::Send { method, url, encoding } => ActionModel::Send {
                method,
                url: url@,
                encoding,
            },
            Action::Deliver => ActionModel::Deliver,
            Action::Fail(error) => ActionModel::Fail(error),
        }
    }
}

/// One call in progress: the request that was asked for and where it stands.
#[derive(Debug, PartialEq, Eq)]
pub struct Call {
    pub method: Method,
    pub path: String,
    pub phase: Phase,
}

/// A `Call` as plain text.
pub struct CallModel {
    pub method: Method,
    pub path: Seq<char>,
    pub phase: Phase,
}

impl View for Call {
    type V = CallModel;

    open spec fn view(&self) -> CallModel {
        CallModel { method: self.method, path: self.path@, phase: self.phase }
    }
}

/// The login request of the user that `c` holds.
pub open spec fn login_action(c: Credentials) -> ActionModel {
    ActionModel::Login {
        url: uri(c.base_url->Some_0, c.port->Some_0, PROXMOX_LOGIN_PATH@),
        username: login_name(c.user->Some_0, c.realm->Some_0),
        password: c.password->Some_0,
        accept_invalid_certs: ACCEPT_INVALID_CERTS,
    }
}

/// The transport of a session on the server of `c`: the token goes into a
/// header, the ticket into a cookie for the server's origin.
pub open spec fn session_action(c: Credentials, ticket: Seq<char>, token: Seq<char>) -> ActionModel {
    ActionModel::OpenSession {
        header_name: CSRF_PREVENTION_TOKEN_KEY@,
        header_value: token,
        cookie: cookie(PVE_AUTH_COOKIE_KEY@, ticket),
        origin: origin(c.base_url->Some_0, c.port->Some_0),
        accept_invalid_certs: ACCEPT_INVALID_CERTS,
    }
}

/// The request itself, on the server of `c`.
pub open spec fn send_action(c: Credentials, method: Method, path: Seq<char>) -> ActionModel {
    ActionModel::Send {
        method,
        url: uri(c.base_url->Some_0, c.port->Some_0, path),
        encoding: method.encoding(),
    }
}

/// The transitions of a call: the phase and the action that follow when
/// `event` is reported in `call.phase`, or `None` where the event does not
/// belong to the phase.
pub open spec fn step(c: Credentials, call: CallModel, event: EventModel) -> Option<
    (Phase, ActionModel),
> {
    match (call.phase, event) {
        (Phase::Unauthenticated, EventModel::Start) => Some((Phase::LoggingIn, login_action(c))),
        (
            Phase::LoggingIn,
            EventModel::LoginReplied { ticket: Some(ticket), csrf_prevention_token: Some(token) },
        ) => Some((Phase::Authenticated, session_action(c, ticket, token))),
        (Phase::LoggingIn, EventModel::LoginReplied { .. })
        | (Phase::LoggingIn, EventModel::LoginUnreadable)
        | (Phase::LoggingIn, EventModel::LoginFailed) => Some(
            (Phase::Failed, ActionModel::Fail(RequestError::Authentication)),
        ),
        (Phase::Authenticated, EventModel::TransportReady) => Some(
            (Phase::Dispatching, send_action(c, call.method, call.path)),
        ),
        (Phase::Authenticated, EventModel::TransportFailed) => Some(
            (Phase::Failed, ActionModel::Fail(RequestError::Transport)),
        ),
        (Phase::Dispatching, EventModel::Responded) => Some(
            (Phase::Completed, ActionModel::Deliver),
        ),
        (Phase::Dispatching, EventModel::SendFailed) => Some(
            (Phase::Failed, ActionModel::Fail(RequestError::Transport)),
        ),
        _ => None,
    }
}

impl Call {
    /// A call that has not begun.
    pub fn new(method: Method, path: &str) -> (r: Call)
        ensures
            r@ == (CallModel { method, path: path@, phase: Phase::Unauthenticated }),
    {
        Call { method, path: String::from_str(path), phase: Phase::Unauthenticated }
    }

    /// Whether the call has ended.
    pub fn is_over(&self) -> (r: bool)
        ensures
            r == self@.phase.is_final(),
    {
        match self.phase {
            Phase::Completed | Phase::Failed => true,
            _ => false,
        }
    }
}

impl ProxmoxClient {
    /// The login request for this client's user.
    fn login(&self) -> (r: Action)
        requires
            self@.complete(),
        ensures
            r@ == login_action(self@),
    {
        proof {
            crate::client::lemma_first_missing(self@);
        }
        Action::Login {
            url: format_uri(
                self.value(Field::BaseUrl),
                self.value(Field::Port),
                PROXMOX_LOGIN_PATH,
            ),
            username: format_login_name(self.value(Field::User), self.value(Field::Realm)),
            password: String::from_str(self.value(Field::Password)),
            accept_invalid_certs: ACCEPT_INVALID_CERTS,
        }
    }

    /// Takes a call one step further: given what the network did, says what
    /// to do next. An event that does not belong to the call's phase is
    /// answered with `None` and changes nothing.
    pub fn advance(&self, call: &mut Call, event: Event) -> (r: Option<Action>)
        requires
            self@.complete(),
        ensures
            match step(self@, old(call)@, event@) {
                Some((phase, action)) => {
                    &&& r is Some
                    &&& r->Some_0@ == action
                    &&& final(call)@ == (CallModel { phase, ..old(call)@ })
                },
                None => r is None && final(call)@ == old(call)@,
            },
    {
        proof {
            crate::client::lemma_first_missing(self@);
        }
        match (call.phase, event) {
            (Phase::Unauthenticated, Event::Start) => {
                call.phase = Phase::LoggingIn;
                Some(self.login())
            },
            (
                Phase::LoggingIn,
                Event::LoginReplied { ticket: Some(ticket), csrf_prevention_token: Some(token) },
            ) => {
                call.phase = Phase::Authenticated;
                Some(
                    Action::OpenSession {
                        header_name: String::from_str(CSRF_PREVENTION_TOKEN_KEY),
                        header_value: token,
                        cookie: format_cookie(PVE_AUTH_COOKIE_KEY, ticket.as_str()),
                        origin: format_origin(self.value(Field::BaseUrl), self.value(Field::Port)),
                        accept_invalid_certs: ACCEPT_INVALID_CERTS,
                    },
                )
            },
            (Phase::LoggingIn, Event::LoginReplied { .. })
            | (Phase::LoggingIn, Event::LoginUnreadable)
            | (Phase::LoggingIn, Event::LoginFailed) => {
                call.phase = Phase::Failed;
                Some(Action::Fail(RequestError::Authentication))
            },
            (Phase::Authenticated, Event::TransportReady) => {
                call.phase = Phase::Dispatching;
                Some(
                    Action::Send {
                        method: call.method,
                        url: format_uri(
                            self.value(Field::BaseUrl),
                            self.value(Field::Port),
                            call.path.as_str(),
                        ),
                        encoding: call.method.payload_encoding(),
                    },
                )
            },
            (Phase::Authenticated, Event::TransportFailed) => {
                call.phase = Phase::Failed;
                Some(Action::Fail(RequestError::Transport))
            },
            (Phase::Dispatching, Event::Responded) => {
                call.phase = Phase::Completed;
                Some(Action::Deliver)
            },
            (Phase::Dispatching, Event::SendFailed) => {
                call.phase = Phase::Failed;
                Some(Action::Fail(RequestError::Transport))
            },
            _ => None,
        }
    }

    /// Begins a call of `method` on `path`: the call is logging in, and the
    /// action is the login request.
    pub fn request(&self, method: Method, path: &str) -> (r: (Call, Action))
        requires
            self@.complete(),
        ensures
            r.0@ == (CallModel { method, path: path@, phase: Phase::LoggingIn }),
            r.1@ == login_action(self@),
            step(
                self@,
                CallModel { method, path: path@, phase: Phase::Unauthenticated },
                EventModel::Start,
            ) == Some((r.0@.phase, r.1@)),
    {
        let call = Call { method, path: String::from_str(path), phase: Phase::LoggingIn };
        (call, self.login())
    }
}

/// The course of a call: the phase in which it stands and the actions it has
/// asked for, after `events` were reported one after the other. An event out
/// of turn is passed over.
pub open spec fn course(c: Credentials, call: CallModel, events: Seq<EventModel>) -> (
    Phase,
    Seq<ActionModel>,
)
    decreases events.len(),
{
    if events.len() == 0 {
        (call.phase, Seq::empty())
    } else {
        let (phase, actions) = course(c, call, events.drop_last());
        match step(c, CallModel { phase, ..call }, events.last()) {
            Some((next, action)) => (next, actions.push(action)),
            None => (phase, actions),
        }
    }
}

/// The action that a call asks for in a given place when nothing has failed:
/// first the login, then the transport of the session, then the request,
/// then the delivery.
pub open spec fn in_place(i: int, action: ActionModel) -> bool {
    ||| i == 0 && action is Login
    ||| i == 1 && action is OpenSession
    ||| i == 2 && action is Send
    ||| i == 3 && action is Deliver
}

/// The actions of a call that stands in `phase` are in order: each is the
/// one of its place, but that a failure may end them anywhere after the login.
pub open spec fn in_order(phase: Phase, actions: Seq<ActionModel>) -> bool {
    &&& actions.len() <= 4
    &&& phase != Phase::Failed ==> actions.len() == phase.rank()
    &&& phase == Phase::Failed ==> actions.len() >= 2 && actions.last() is Fail
    &&& forall|i: int|
        0 <= i < actions.len() ==> {
            ||| in_place(i, #[trigger] actions[i])
            ||| actions[i] is Fail && phase == Phase::Failed && i == actions.len() - 1
        }
}

/// Whatever events are reported to a call from its start, in whatever
/// order, its actions are in order. So it asks for at most four actions; no
/// request is sent before a login has yielded a session, and none after a
/// failure; and a response is delivered only after the request was sent.
pub proof fn law_course_is_in_order(c: Credentials, call: CallModel, events: Seq<EventModel>)
    requires
        call.phase == Phase::Unauthenticated,
    ensures
        in_order(course(c, call, events).0, course(c, call, events).1),
        forall|i: int|
            0 <= i < course(c, call, events).1.len() && (#[trigger] course(
                c,
                call,
                events,
            ).1[i]) is Send ==> {
                &&& i == 2
                &&& course(c, call, events).1[0] is Login
                &&& course(c, call, events).1[1] is OpenSession
            },
    decreases events.len(),
{
    if events.len() > 0 {
        law_course_is_in_order(c, call, events.drop_last());
        let (phase, actions) = course(c, call, events.drop_last());
        match step(c, CallModel { phase, ..call }, events.last()) {
            Some((next, action)) => {
                let longer = actions.push(action);
                assert(longer.last() == action);
                assert forall|i: int| 0 <= i < longer.len() implies {
                    ||| in_place(i, #[trigger] longer[i])
                    ||| longer[i] is Fail && next == Phase::Failed && i == longer.len() - 1
                } by {
                    if i < actions.len() {
                        assert(longer[i] == actions[i]);
                    }
                }
            },
            None => {},
        }
    }
    let actions = course(c, call, events).1;
    assert forall|i: int| 0 <= i < actions.len() && (#[trigger] actions[i]) is Send implies i == 2
        && actions[0] is Login && actions[1] is OpenSession by {
        assert(in_place(i, actions[i]));
        assert(in_place(0, actions[0]) || actions[0] is Fail);
        assert(in_place(1, actions[1]) || actions[1] is Fail);
    }
}

/// The payload goes into the query exactly for GET and into a form exactly
/// for POST, PUT and DELETE, and the request that is sent follows the method
/// of its call.
pub proof fn law_encoding_follows_method(c: Credentials, call: CallModel, event: EventModel)
    ensures
        call.method.encoding() == Encoding::Query <==> call.method == Method::Get,
        call.method.encoding() == Encoding::Form <==> call.method == Method::Post || call.method
            == Method::Put || call.method == Method::Delete,
        step(c, call, event) matches Some((_, ActionModel::Send { method, url, encoding }))
            ==> method == call.method && encoding == call.method.encoding() && url == uri(
            c.base_url->Some_0,
            c.port->Some_0,
            call.path,
        ),
{
}

/// A login that does not yield both a ticket and a token fails the call as
/// an authentication error: whether the body lacks one of the two, is no
/// JSON, or the login failed in transport.
pub proof fn law_failed_login_fails(c: Credentials, call: CallModel, event: EventModel)
    requires
        call.phase == Phase::LoggingIn,
        match event {
            EventModel::LoginReplied { ticket, csrf_prevention_token } => ticket is None
                || csrf_prevention_token is None,
            EventModel::LoginUnreadable => true,
            EventModel::LoginFailed => true,
            _ => false,
        },
    ensures
        step(c, call, event) == Some(
            (Phase::Failed, ActionModel::Fail(RequestError::Authentication)),
        ),
{
}

/// The actions come in order. The login is asked for only at the start. The
/// transport of a session is made only when a login has yielded both ticket
/// and token. The request is sent only over a transport that is ready, and
/// the response is delivered only after the request was answered.
pub proof fn law_actions_in_order(c: Credentials, call: CallModel, event: EventModel)
    ensures
        step(c, call, event) matches Some((phase, action)) ==> {
            &&& action is Login <==> call.phase == Phase::Unauthenticated
            &&& action is Login <==> phase == Phase::LoggingIn
            &&& action is OpenSession <==> call.phase == Phase::LoggingIn && (event matches EventModel::LoginReplied {
                ticket: Some(_),
                csrf_prevention_token: Some(_),
            })
            &&& action is OpenSession <==> phase == Phase::Authenticated
            &&& action is Send <==> call.phase == Phase::Authenticated && event
                == EventModel::TransportReady
            &&& action is Send <==> phase == Phase::Dispatching
            &&& action is Deliver <==> call.phase == Phase::Dispatching && event
                == EventModel::Responded
            &&& action is Deliver <==> phase == Phase::Completed
            &&& action is Fail <==> phase == Phase::Failed
        },
{
}

/// A call that has ended takes no further step. Every step takes a call
/// forward, by one phase or to its failure, so that a call ends within four
/// steps and never logs in twice.
pub proof fn law_calls_move_forward(c: Credentials, call: CallModel, event: EventModel)
    ensures
        call.phase.is_final() ==> step(c, call, event) is None,
        step(c, call, event) matches Some((phase, _)) ==> phase.rank() == call.phase.rank() + 1
            || phase == Phase::Failed,
        step(c, call, event) matches Some((phase, _)) ==> phase.rank() > call.phase.rank(),
{
}

} // verus!
