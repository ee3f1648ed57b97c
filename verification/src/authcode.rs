//! The sign-in window's state machine.
//!
//! A caller asks for an authorization code for a URL. The machine then opens
//! a login window on the Microsoft login site, waits until the user has left
//! the login site's origin, loads the requested URL, and answers the caller
//! with the `code` (or the `err`) that a later page carries in its query.
//!
//! The window, the web view and the reply channel live outside the library:
//! each handler here takes the current state and an event (or the outcome
//! of outside work) and gives the next state and the one action that the
//! event loop is to perform.

use crate::outside::{parse_origin, parse_query_pairs, url_origin_text, url_query_pairs};
use vstd::prelude::*;
use vstd::string::to_string_from_display_ensures;

verus! {

/// The page on which the login window opens.
pub const LOGIN_URL: &'static str = "https://login.microsoftonline.com/";

/// Why a request for an authorization code failed.
#[derive(Debug)]
pub enum AuthCodeError {
    /// An I/O error, such as one in creating the web view's data directory.
    Io(std::io::Error),
    /// The message of an error of the windowing system.
    Os(String),
    /// The message of an error of the web view.
    Wry(String),
    /// Another request is in progress.
    Busy,
    /// A page's URL is not an absolute URL.
    UrlParse(url::ParseError),
    /// The page answered with an `err` query parameter; its value.
    Failed(String),
    /// The event loop is gone.
    EventLoopClosed,
    /// The event loop dropped the request without answering it.
    Recv(std::sync::mpsc::RecvError),
}

impl AuthCodeError {
    /// The error's message.
    pub fn message(&self) -> (m: String)
        ensures
            match self {
                AuthCodeError::Io(e) => to_string_from_display_ensures(e, m),
                AuthCodeError::Os(s) => m@ == s@,
                AuthCodeError::Wry(s) => m@ == s@,
                AuthCodeError::Busy => m@ == "busy"@,
                AuthCodeError::UrlParse(e) => to_string_from_display_ensures(e, m),
                AuthCodeError::Failed(s) => m@ == s@,
                AuthCodeError::EventLoopClosed => m@ == "event loop closed."@,
                AuthCodeError::Recv(e) => to_string_from_display_ensures(e, m),
            },
    {
        match self {
            AuthCodeError::Io(e) => e.to_string(),
            AuthCodeError::Os(s) => s.clone(),
            AuthCodeError::Wry(s) => s.clone(),
            AuthCodeError::Busy => String::from_str("busy"),
            AuthCodeError::UrlParse(e) => e.to_string(),
            AuthCodeError::Failed(s) => s.clone(),
            AuthCodeError::EventLoopClosed => String::from_str("event loop closed."),
            AuthCodeError::Recv(e) => e.to_string(),
        }
    }
}

impl From<std::io::Error> for AuthCodeError {
    fn from(e: std::io::Error) -> (r: Self) {
        AuthCodeError::Io(e)
    }
}

impl vstd::std_specs::convert::FromSpecImpl<std::io::Error> for AuthCodeError {
    open spec fn obeys_from_spec() -> bool {
        true
    }

    open spec fn from_spec(e: std::io::Error) -> Self {
        AuthCodeError::Io(e)
    }
}

impl From<url::ParseError> for AuthCodeError {
    fn from(e: url::ParseError) -> (r: Self) {
        AuthCodeError::UrlParse(e)
    }
}

impl vstd::std_specs::convert::FromSpecImpl<url::ParseError> for AuthCodeError {
    open spec fn obeys_from_spec() -> bool {
        true
    }

    open spec fn from_spec(e: url::ParseError) -> Self {
        AuthCodeError::UrlParse(e)
    }
}

impl From<std::sync::mpsc::RecvError> for AuthCodeError {
    fn from(e: std::sync::mpsc::RecvError) -> (r: Self) {
        AuthCodeError::Recv(e)
    }
}

impl vstd::std_specs::convert::FromSpecImpl<std::sync::mpsc::RecvError> for AuthCodeError {
    open spec fn obeys_from_spec() -> bool {
        true
    }

    open spec fn from_spec(e: std::sync::mpsc::RecvError) -> Self {
        AuthCodeError::Recv(e)
    }
}

/// The error of the event loop's handlers. It has no value (its one variant
/// holds an `Infallible`): no handler fails.
#[derive(Debug)]
pub enum EventLoopError {
    Never(std::convert::Infallible),
}

/// Where the request in progress stands.
#[derive(Clone, Copy, PartialEq, Eq, Structural, Debug)]
pub enum Phase {
    /// Accepted; the login window is not open yet.
    Begin,
    /// The login window shows the login site.
    Login,
    /// The user has left the login site; the requested URL is loaded and a
    /// page whose query carries `code` or `err` is awaited.
    GetCode,
}

/// The request in progress: its phase and the URL whose authorization code
/// is asked for.
#[derive(Debug)]
pub struct State {
    pub phase: Phase,
    pub url: String,
}

/// An event that the library's users, or the web view, post to the loop.
#[derive(Debug)]
pub enum UserEvent {
    /// The state has changed; act on the new one.
    StateChanged,
    /// The web view started to load the page at this URL.
    PageLoading(String),
    /// A caller asks for the authorization code of this URL.
    RequestGetCode(String),
}

/// An event of the event loop.
#[derive(Debug)]
pub enum Event {
    /// The user closed the window.
    CloseRequested,
    /// An event of ours.
    UserEvent(UserEvent),
    /// Any other event of the windowing system.
    Other,
}

/// What the event loop is to do after a step.
#[derive(Debug)]
pub enum Action {
    /// Nothing.
    Nothing,
    /// Keep the requester's reply channel for the new request, and post
    /// `StateChanged`.
    Accept,
    /// Answer the requester `Err(AuthCodeError::Busy)`.
    RefuseBusy,
    /// Post `StateChanged`.
    Notify,
    /// Open the login window with a web view on `LOGIN_URL`, then hand the
    /// outcome to `handle_window_opened`.
    OpenWindow,
    /// Load this URL in the web view, then hand the outcome to
    /// `handle_url_loaded`.
    LoadUrl(String),
    /// Send this answer on the request's reply channel (a closed channel is
    /// ignored).
    Reply(Result<String, AuthCodeError>),
}

/// The order of the phases.
pub open spec fn rank(p: Phase) -> nat {
    match p {
        Phase::Begin => 0,
        Phase::Login => 1,
        Phase::GetCode => 2,
    }
}

/// Two origins, given by their ASCII serializations, are the same: equal,
/// and not opaque (an opaque origin, `null`, equals no origin of another URL).
pub open spec fn same_origin(a: Seq<char>, b: Seq<char>) -> bool {
    a == b && a != "null"@
}

/// The page at `url` is on the site of the login origin `login`.
pub open spec fn on_login_site(login: Seq<char>, url: Seq<char>) -> bool {
    url_origin_text(url) is Some && same_origin(login, url_origin_text(url)->0)
}

/// What the query pairs of a page say: the value of the first pair named
/// `code` (`Ok(Some)`) or `err` (`Err`), whichever comes first; `Ok(None)`
/// where there is neither.
pub open spec fn code_in_pairs(pairs: Seq<(Seq<char>, Seq<char>)>) -> Result<
    Option<Seq<char>>,
    Seq<char>,
>
    decreases pairs.len(),
{
    if pairs.len() == 0 {
        Ok(None)
    } else if pairs[0].0 == "code"@ {
        Ok(Some(pairs[0].1))
    } else if pairs[0].0 == "err"@ {
        Err(pairs[0].1)
    } else {
        code_in_pairs(pairs.drop_first())
    }
}

/// `r` is the answer `c` that a page's query pairs give (see
/// `code_in_pairs`).
pub open spec fn answer_matches(
    c: Result<Option<Seq<char>>, Seq<char>>,
    r: Result<Option<String>, AuthCodeError>,
) -> bool {
    match c {
        Ok(None) => r matches Ok(None),
        Ok(Some(code)) => r matches Ok(Some(s)) && s@ == code,
        Err(m) => r matches Err(AuthCodeError::Failed(s)) && s@ == m,
    }
}

/// The result of `code_from_query` on the parse result `parsed` of a page's
/// query pairs: the parse's own error, or the answer of the pairs.
pub open spec fn query_answer(
    parsed: Result<Vec<(String, String)>, url::ParseError>,
    r: Result<Option<String>, AuthCodeError>,
) -> bool {
    match parsed {
        Err(e) => r == Err::<Option<String>, AuthCodeError>(AuthCodeError::UrlParse(e)),
        Ok(pairs) => answer_matches(code_in_pairs(pairs.deep_view()), r),
    }
}

/// The result of `handle_page_loading_get_code` on the page at `url`.
pub open spec fn get_code_outcome(url: Seq<char>, r: Result<Option<String>, AuthCodeError>) -> bool {
    match url_query_pairs(url) {
        None => r matches Err(AuthCodeError::UrlParse(_)),
        Some(pairs) => answer_matches(code_in_pairs(pairs), r),
    }
}

/// The state after a page with origin `origin` loads in state `s`, where
/// `login` is the login page's origin.
pub open spec fn after_origin(s: State, login: Seq<char>, origin: Seq<char>) -> State {
    if same_origin(login, origin) {
        s
    } else {
        State { phase: Phase::GetCode, url: s.url }
    }
}

/// The login step in state `s` may go on: it is at `Login`, or the page is
/// not an URL, or it is on the login site (elsewhere a page load at
/// another step is unreachable).
pub open spec fn login_ready(s: State, login: Seq<char>, origin: Option<Seq<char>>) -> bool {
    s.phase == Phase::Login || origin is None || same_origin(login, origin->0)
}

/// The result of `login_step` in state `s` on the parse result `parsed` of
/// a page's origin: the parse's own error, or the state after the origin.
pub open spec fn login_step_outcome(
    s: State,
    login: Seq<char>,
    parsed: Result<String, url::ParseError>,
    r: Result<State, AuthCodeError>,
) -> bool {
    match parsed {
        Err(e) => r == Err::<State, AuthCodeError>(AuthCodeError::UrlParse(e)),
        Ok(o) => r == Ok::<State, AuthCodeError>(after_origin(s, login, o@)),
    }
}

/// The step of a page load at the login step, on the parse result `parsed`
/// of the page's origin: from `old` to `new`, with action `a`.
pub open spec fn login_page_outcome(
    old: Option<State>,
    login: Seq<char>,
    parsed: Result<String, url::ParseError>,
    new: Option<State>,
    a: Action,
) -> bool {
    match parsed {
        Err(e) => new is None && a == Action::Reply(Err(AuthCodeError::UrlParse(e))),
        Ok(o) => new == Some(after_origin(old->0, login, o@)) && a is Notify,
    }
}

/// The step of a page load while the code is awaited, on the parse result
/// `parsed` of the page's query pairs: from `old` to `new`, with action `a`.
pub open spec fn code_page_outcome(
    old: Option<State>,
    parsed: Result<Vec<(String, String)>, url::ParseError>,
    new: Option<State>,
    a: Action,
) -> bool {
    match parsed {
        Err(e) => new == old && a == Action::Reply(Err(AuthCodeError::UrlParse(e))),
        Ok(pairs) => match code_in_pairs(pairs.deep_view()) {
            Ok(None) => new == old && a is Nothing,
            Ok(Some(c)) => new is None && (a matches Action::Reply(Ok(v)) && v@ == c),
            Err(m) => new == old && (a matches Action::Reply(Err(AuthCodeError::Failed(v)))
                && v@ == m),
        },
    }
}

/// The result of `handle_page_loading_login` in state `s` on the page at
/// `url`, where `login` is the login page's origin.
pub open spec fn login_outcome(
    s: State,
    login: Seq<char>,
    url: Seq<char>,
    r: Result<State, AuthCodeError>,
) -> bool {
    match url_origin_text(url) {
        None => r matches Err(AuthCodeError::UrlParse(_)),
        Some(o) => r == Ok::<State, AuthCodeError>(after_origin(s, login, o)),
    }
}

/// The step of a page load at `url`, in a state that is `Login` or
/// `GetCode`: from `old` to `new`, with action `a`.
pub open spec fn page_loading_outcome(
    old: Option<State>,
    login: Seq<char>,
    url: Seq<char>,
    new: Option<State>,
    a: Action,
) -> bool {
    let s = old->0;
    if s.phase == Phase::Login {
        match url_origin_text(url) {
            None => new is None && a matches Action::Reply(Err(AuthCodeError::UrlParse(_))),
            Some(o) => a is Notify && new == Some(after_origin(s, login, o)),
        }
    } else {
        match url_query_pairs(url) {
            None => new == old && a matches Action::Reply(Err(AuthCodeError::UrlParse(_))),
            Some(pairs) => match code_in_pairs(pairs) {
                Ok(None) => new == old && a is Nothing,
                Ok(Some(c)) => new is None && (a matches Action::Reply(Ok(v)) && v@ == c),
                Err(m) => new == old && (a matches Action::Reply(Err(AuthCodeError::Failed(v)))
                    && v@ == m),
            },
        }
    }
}

/// The action on `StateChanged` in state `s`; the state stays.
pub open spec fn state_changed_outcome(s: Option<State>, a: Action) -> bool {
    match s {
        None => a is Nothing,
        Some(st) => match st.phase {
            Phase::Begin => a is OpenWindow,
            Phase::Login => a is Nothing,
            Phase::GetCode => a matches Action::LoadUrl(u) && u@ == st.url@,
        },
    }
}

/// A page can be loading only while the login window is open.
pub open spec fn user_event_ready(s: Option<State>, e: UserEvent) -> bool {
    e is PageLoading ==> (s is Some && s->0.phase != Phase::Begin)
}

/// The step of a user event: from `old` to `new`, with action `a`.
pub open spec fn user_event_outcome(
    old: Option<State>,
    login: Seq<char>,
    e: UserEvent,
    new: Option<State>,
    a: Action,
) -> bool {
    match e {
        UserEvent::StateChanged => new == old && state_changed_outcome(old, a),
        UserEvent::RequestGetCode(u) => if old is Some {
            new == old && a is RefuseBusy
        } else {
            new == Some(State { phase: Phase::Begin, url: u }) && a is Accept
        },
        UserEvent::PageLoading(u) => page_loading_outcome(old, login, u@, new, a),
    }
}

/// An event can be handled in state `s`.
pub open spec fn event_ready(s: Option<State>, e: Event) -> bool {
    e matches Event::UserEvent(ue) ==> user_event_ready(s, ue)
}

/// The step of an event: from `old` to `new`, with action `a`.
pub open spec fn event_outcome(
    old: Option<State>,
    login: Seq<char>,
    e: Event,
    new: Option<State>,
    a: Action,
) -> bool {
    match e {
        Event::CloseRequested => new is None && a is Nothing,
        Event::UserEvent(ue) => user_event_outcome(old, login, ue, new, a),
        Event::Other => new == old && a is Nothing,
    }
}

/// The step after the login window was opened (`Ok`) or could not be
/// (`Err`), from `old` to `new`, with action `a`.
pub open spec fn window_opened_outcome(
    old: Option<State>,
    opened: Result<(), AuthCodeError>,
    new: Option<State>,
    a: Action,
) -> bool {
    if old is Some && old->0.phase == Phase::Begin {
        match opened {
            Ok(_) => new == Some(State { phase: Phase::Login, url: old->0.url }) && a is Notify,
            Err(e) => new is None && a == Action::Reply(Err(e)),
        }
    } else {
        new == old && a is Nothing
    }
}

/// The action after the requested URL was loaded (`Ok`) or could not be
/// (`Err`); the state stays.
pub open spec fn url_loaded_outcome(
    s: Option<State>,
    loaded: Result<(), AuthCodeError>,
    a: Action,
) -> bool {
    if s is Some && s->0.phase == Phase::GetCode && loaded is Err {
        a == Action::Reply(Err(loaded->Err_0))
    } else {
        a is Nothing
    }
}

/// The origin of `LOGIN_URL`, in its ASCII serialization; `None` where the
/// url crate does not parse it.
pub fn login_origin() -> (r: Option<String>)
    ensures
        r is Some <==> url_origin_text(LOGIN_URL@) is Some,
        r matches Some(o) ==> o@ == url_origin_text(LOGIN_URL@)->0,
{
    match parse_origin(LOGIN_URL) {
        Ok(o) => Some(o),
        Err(_) => None,
    }
}

/// Reads the answer that a page's query pairs carry: the value of the first
/// `code` pair, or the value of the first `err` pair as
/// `AuthCodeError::Failed`, whichever comes first.
pub fn code_from_pairs(pairs: &Vec<(String, String)>) -> (r: Result<Option<String>, AuthCodeError>)
    ensures
        answer_matches(code_in_pairs(pairs.deep_view()), r),
{
    let ghost ps = pairs.deep_view();
    let code_key = String::from_str("code");
    let err_key = String::from_str("err");
    let n: usize = pairs.len();
    let mut i: usize = 0;
    assert(ps.skip(0) =~= ps);
    while i < n
        invariant
            n == pairs.len(),
            ps == pairs.deep_view(),
            0 <= i <= n,
            code_in_pairs(ps) == code_in_pairs(ps.skip(i as int)),
            code_key@ == "code"@,
            err_key@ == "err"@,
        decreases n - i,
    {
        let key = &pairs[i].0;
        let val = &pairs[i].1;
        assert(ps.skip(i as int).drop_first() =~= ps.skip(i + 1));
        assert(ps.skip(i as int)[0] == ps[i as int]);
        assert(ps[i as int] == (key@, val@));
        if *key == code_key {
            return Ok(Some(val.clone()));
        }
        if *key == err_key {
            return Err(AuthCodeError::Failed(val.clone()));
        }
        i = i + 1;
    }
    assert(ps.skip(n as int) =~= Seq::<(Seq<char>, Seq<char>)>::empty());
    Ok(None)
}

/// Reads the answer of a page from the parse result of its query pairs: the
/// parse's error, or what the pairs say (see `code_from_pairs`).
pub fn code_from_query(parsed: Result<Vec<(String, String)>, url::ParseError>) -> (r: Result<
    Option<String>,
    AuthCodeError,
>)
    ensures
        query_answer(parsed, r),
{
    match parsed {
        Ok(pairs) => code_from_pairs(&pairs),
        Err(e) => Err(AuthCodeError::UrlParse(e)),
    }
}

/// Reads the answer that the page at `url` carries in its query (see
/// `code_from_query`).
pub fn handle_page_loading_get_code(url: &str) -> (r: Result<Option<String>, AuthCodeError>)
    ensures
        get_code_outcome(url@, r),
{
    code_from_query(parse_query_pairs(url))
}

/// The state after a page with origin `origin` (an ASCII serialization)
/// loads at the login step: it stays where the origin is the login page's
/// origin `login`, and moves to `GetCode` otherwise.
pub fn after_page_origin(state: State, login: &String, origin: &String) -> (r: State)
    requires
        login_ready(state, login@, Some(origin@)),
    ensures
        r == after_origin(state, login@, origin@),
{
    let null = String::from_str("null");
    if *origin == *login && !(*origin == null) {
        return state;
    }
    State { phase: Phase::GetCode, url: state.url }
}

/// The login step on the parse result of a page's origin: the parse's error,
/// or the state after that origin (see `after_page_origin`).
pub fn login_step(state: State, login: &String, parsed: Result<String, url::ParseError>) -> (r:
    Result<State, AuthCodeError>)
    requires
        login_ready(
            state,
            login@,
            match parsed {
                Ok(o) => Some(o@),
                Err(_) => None,
            },
        ),
    ensures
        login_step_outcome(state, login@, parsed, r),
{
    match parsed {
        Ok(origin) => Ok(after_page_origin(state, login, &origin)),
        Err(e) => Err(AuthCodeError::UrlParse(e)),
    }
}

/// A page loads while the login window shows the login site: the state
/// stays where the page is on the login origin, and moves to `GetCode`
/// otherwise. `login` is the login page's origin (see `login_origin`).
pub fn handle_page_loading_login(state: State, login: &String, url: &str) -> (r: Result<
    State,
    AuthCodeError,
>)
    requires
        login_ready(state, login@, url_origin_text(url@)),
    ensures
        login_outcome(state, login@, url@, r),
{
    login_step(state, login, parse_origin(url))
}

/// The login window for a request in `Begin` was opened (`Ok`) or could not
/// be (`Err`): the request moves to `Login`, or fails with that error.
pub fn handle_begin(state: State, opened: Result<(), AuthCodeError>) -> (r: Result<
    State,
    AuthCodeError,
>)
    requires
        state.phase == Phase::Begin,
    ensures
        match opened {
            Ok(_) => r == Ok::<State, AuthCodeError>(State { phase: Phase::Login, url: state.url }),
            Err(e) => r == Err::<State, AuthCodeError>(e),
        },
{
    match opened {
        Ok(()) => Ok(State { phase: Phase::Login, url: state.url }),
        Err(e) => Err(e),
    }
}

/// The action on `StateChanged`: open the login window in `Begin`, load the
/// requested URL in `GetCode`, nothing otherwise.
pub fn handle_state_changed(state: &Option<State>) -> (r: Result<Action, EventLoopError>)
    ensures
        r matches Ok(a) && state_changed_outcome(*state, a),
{
    match state {
        None => Ok(Action::Nothing),
        Some(s) => match s.phase {
            Phase::Begin => Ok(Action::OpenWindow),
            Phase::Login => Ok(Action::Nothing),
            Phase::GetCode => Ok(Action::LoadUrl(s.url.clone())),
        },
    }
}

/// The step after `Action::OpenWindow`: on success the request moves to
/// `Login` and `StateChanged` is posted; on failure the request ends and its
/// requester is answered with the error.
pub fn handle_window_opened(state: &mut Option<State>, opened: Result<(), AuthCodeError>) -> (a:
    Action)
    ensures
        window_opened_outcome(*old(state), opened, *final(state), a),
{
    let begun = match state {
        Some(s) => s.phase == Phase::Begin,
        None => false,
    };
    if !begun {
        return Action::Nothing;
    }
    let current = state.take().unwrap();
    match handle_begin(current, opened) {
        Ok(next) => {
            *state = Some(next);
            Action::Notify
        },
        Err(e) => Action::Reply(Err(e)),
    }
}

/// The step after `Action::LoadUrl`: a failure to load the requested URL is
/// answered to the requester; the state stays.
pub fn handle_url_loaded(state: &Option<State>, loaded: Result<(), AuthCodeError>) -> (a: Action)
    ensures
        url_loaded_outcome(*state, loaded, a),
{
    let getting = match state {
        Some(s) => s.phase == Phase::GetCode,
        None => false,
    };
    match loaded {
        Err(e) => if getting {
            Action::Reply(Err(e))
        } else {
            Action::Nothing
        },
        Ok(()) => Action::Nothing,
    }
}

/// A page loaded at the login step, given the parse result of its origin:
/// the request moves on (see `login_step`) and `StateChanged` is posted, or,
/// where the page is not an URL, the request ends and is answered with the
/// parse's error.
pub fn login_page_loaded(
    state: &mut Option<State>,
    login: &String,
    parsed: Result<String, url::ParseError>,
) -> (a: Action)
    requires
        *old(state) is Some,
        (*old(state))->0.phase == Phase::Login,
    ensures
        login_page_outcome(*old(state), login@, parsed, *final(state), a),
{
    let current = state.take().unwrap();
    match login_step(current, login, parsed) {
        Ok(next) => {
            *state = Some(next);
            Action::Notify
        },
        Err(e) => Action::Reply(Err(e)),
    }
}

/// A page loaded while the code is awaited, given the parse result of its
/// query pairs: a code is answered and ends the request; an `err` value or
/// the parse's error is answered and the request stays; otherwise nothing.
pub fn code_page_loaded(
    state: &mut Option<State>,
    parsed: Result<Vec<(String, String)>, url::ParseError>,
) -> (a: Action)
    ensures
        code_page_outcome(*old(state), parsed, *final(state), a),
{
    match code_from_query(parsed) {
        Ok(None) => Action::Nothing,
        Ok(Some(code)) => {
            *state = None;
            Action::Reply(Ok(code))
        },
        Err(e) => Action::Reply(Err(e)),
    }
}

/// A page starts to load in the web view.
pub fn handle_page_loading(state: &mut Option<State>, login: &String, url: &str) -> (r: Result<
    Action,
    EventLoopError,
>)
    requires
        *old(state) is Some,
        (*old(state))->0.phase != Phase::Begin,
    ensures
        r matches Ok(a) && page_loading_outcome(*old(state), login@, url@, *final(state), a),
{
    let at_login = match state {
        Some(s) => s.phase == Phase::Login,
        None => false,
    };
    if at_login {
        let current = state.take().unwrap();
        match handle_page_loading_login(current, login, url) {
            Ok(next) => {
                *state = Some(next);
                Ok(Action::Notify)
            },
            Err(e) => Ok(Action::Reply(Err(e))),
        }
    } else {
        Ok(code_page_loaded(state, parse_query_pairs(url)))
    }}

/// Handles an event of ours.
pub fn handle_user_event(state: &mut Option<State>, login: &String, event: UserEvent) -> (r:
    Result<Action, EventLoopError>)
    requires
        user_event_ready(*old(state), event),
    ensures
        r matches Ok(a) && user_event_outcome(*old(state), login@, event, *final(state), a),
{
    match event {
        UserEvent::StateChanged => handle_state_changed(state),
        UserEvent::RequestGetCode(url) => {
            if state.is_some() {
                return Ok(Action::RefuseBusy);
            }
            *state = Some(State { phase: Phase::Begin, url });
            Ok(Action::Accept)
        },
        UserEvent::PageLoading(url) => handle_page_loading(state, login, url.as_str()),
    }
}

/// Handles an event of the event loop.
pub fn handle_event(state: &mut Option<State>, login: &String, event: Event) -> (r: Result<
    Action,
    EventLoopError,
>)
    requires
        event_ready(*old(state), event),
    ensures
        r matches Ok(a) && event_outcome(*old(state), login@, event, *final(state), a),
{
    match event {
        Event::CloseRequested => {
            *state = None;
            Ok(Action::Nothing)
        },
        Event::UserEvent(e) => handle_user_event(state, login, e),
        Event::Other => Ok(Action::Nothing),
    }
}


/// The request stays the same while it runs: from one step to the next its
/// URL is kept and its phase never goes back (`Begin`, `Login`, `GetCode`).
pub open spec fn keeps_request(old: Option<State>, new: Option<State>) -> bool {
    (old is Some && new is Some) ==> (new->0.url == old->0.url && rank(old->0.phase) <= rank(
        new->0.phase,
    ))
}

/// One request at a time: while a request runs, another is answered `Busy`
/// and the running one is left as it is.
pub proof fn law_one_request_at_a_time(
    old: Option<State>,
    login: Seq<char>,
    url: String,
    new: Option<State>,
    a: Action,
)
    requires
        old is Some,
        event_outcome(old, login, Event::UserEvent(UserEvent::RequestGetCode(url)), new, a),
    ensures
        new == old,
        a is RefuseBusy,
{
}

/// When no request runs, a request is accepted and starts in `Begin` with
/// its URL.
pub proof fn law_idle_accepts(
    login: Seq<char>,
    url: String,
    new: Option<State>,
    a: Action,
)
    requires
        event_outcome(None, login, Event::UserEvent(UserEvent::RequestGetCode(url)), new, a),
    ensures
        new == Some(State { phase: Phase::Begin, url }),
        a is Accept,
{
}

/// Closing the window ends the request in progress, without an answer.
pub proof fn law_close_ends_request(
    old: Option<State>,
    login: Seq<char>,
    new: Option<State>,
    a: Action,
)
    requires
        event_outcome(old, login, Event::CloseRequested, new, a),
    ensures
        new is None,
        a is Nothing,
{
}

/// Every step keeps the request in progress: its URL stays and its phase
/// does not go back.
pub proof fn law_request_kept(
    old: Option<State>,
    login: Seq<char>,
    e: Event,
    done: Result<(), AuthCodeError>,
    new: Option<State>,
    a: Action,
)
    ensures
        event_outcome(old, login, e, new, a) ==> keeps_request(old, new),
        window_opened_outcome(old, done, new, a) ==> keeps_request(old, new),
{
}

/// Only a running request is answered (events taken where they can be
/// handled), and an authorization code only once
/// the user has left the login site (in `GetCode`); answering a code ends
/// the request.
pub proof fn law_answers(
    old: Option<State>,
    login: Seq<char>,
    e: Event,
    done: Result<(), AuthCodeError>,
    new: Option<State>,
    a: Action,
)
    ensures
        (event_ready(old, e) && event_outcome(old, login, e, new, a) && a is Reply) ==> old is Some,
        (window_opened_outcome(old, done, new, a) && a is Reply) ==> old is Some,
        (url_loaded_outcome(old, done, a) && a is Reply) ==> old is Some,
        (event_ready(old, e) && event_outcome(old, login, e, new, a) && a matches Action::Reply(
            Ok(_),
        )) ==> (old is Some
            && old->0.phase == Phase::GetCode && new is None),
        window_opened_outcome(old, done, new, a) ==> !(a matches Action::Reply(Ok(_))),
        url_loaded_outcome(old, done, a) ==> !(a matches Action::Reply(Ok(_))),
{
}

/// While the pages load on the login site, the window stays at the login
/// step.
pub proof fn law_login_site_keeps_login(
    old: Option<State>,
    login: Seq<char>,
    url: String,
    new: Option<State>,
    a: Action,
)
    requires
        old is Some,
        old->0.phase == Phase::Login,
        on_login_site(login, url@),
        event_outcome(old, login, Event::UserEvent(UserEvent::PageLoading(url)), new, a),
    ensures
        new == old,
        a is Notify,
{
}

/// A page that leaves the login site moves the request to `GetCode`.
pub proof fn law_leaving_login_site(
    old: Option<State>,
    login: Seq<char>,
    url: String,
    new: Option<State>,
    a: Action,
)
    requires
        old is Some,
        old->0.phase == Phase::Login,
        url_origin_text(url@) is Some,
        !on_login_site(login, url@),
        event_outcome(old, login, Event::UserEvent(UserEvent::PageLoading(url)), new, a),
    ensures
        new == Some(State { phase: Phase::GetCode, url: old->0.url }),
        a is Notify,
{
}

/// The pair named `code` or `err` that comes first decides the answer;
/// pairs before it with other names do not count.
pub proof fn law_first_answer_wins(pairs: Seq<(Seq<char>, Seq<char>)>, k: int)
    requires
        0 <= k < pairs.len(),
        pairs[k].0 == "code"@ || pairs[k].0 == "err"@,
        forall|j: int| 0 <= j < k ==> pairs[j].0 != "code"@ && pairs[j].0 != "err"@,
    ensures
        code_in_pairs(pairs) == (if pairs[k].0 == "code"@ {
            Ok::<Option<Seq<char>>, Seq<char>>(Some(pairs[k].1))
        } else {
            Err::<Option<Seq<char>>, Seq<char>>(pairs[k].1)
        }),
    decreases k,
{
    if k > 0 {
        let rest = pairs.drop_first();
        assert(pairs[0].0 != "code"@ && pairs[0].0 != "err"@);
        assert forall|j: int| 0 <= j < k - 1 implies rest[j].0 != "code"@ && rest[j].0
            != "err"@ by {
            assert(rest[j] == pairs[j + 1]);
        }
        law_first_answer_wins(rest, k - 1);
    }
}

/// A page whose query has no pair named `code` or `err` gives no answer.
pub proof fn law_no_answer_without_code_or_err(pairs: Seq<(Seq<char>, Seq<char>)>)
    requires
        forall|j: int| 0 <= j < pairs.len() ==> pairs[j].0 != "code"@ && pairs[j].0 != "err"@,
    ensures
        code_in_pairs(pairs) == Ok::<Option<Seq<char>>, Seq<char>>(None),
    decreases pairs.len(),
{
    if pairs.len() > 0 {
        let rest = pairs.drop_first();
        assert(pairs[0].0 != "code"@ && pairs[0].0 != "err"@);
        assert forall|j: int| 0 <= j < rest.len() implies rest[j].0 != "code"@ && rest[j].0
            != "err"@ by {
            assert(rest[j] == pairs[j + 1]);
        }
        law_no_answer_without_code_or_err(rest);
    }
}

/// A user event steps as its handler does: `StateChanged` changes nothing
/// and acts as `handle_state_changed` decides; a page load steps as
/// `handle_page_loading` does.
pub proof fn law_user_event_dispatch(
    old: Option<State>,
    login: Seq<char>,
    page: String,
    new: Option<State>,
    a: Action,
)
    ensures
        user_event_outcome(old, login, UserEvent::StateChanged, new, a) <==> (new == old
            && state_changed_outcome(old, a)),
        user_event_outcome(old, login, UserEvent::PageLoading(page), new, a)
            <==> page_loading_outcome(old, login, page@, new, a),
{
}

/// An event of ours steps as `handle_user_event` does; an event of the
/// windowing system other than closing the window changes nothing and asks
/// for nothing.
pub proof fn law_event_dispatch(
    old: Option<State>,
    login: Seq<char>,
    e: UserEvent,
    new: Option<State>,
    a: Action,
)
    ensures
        event_outcome(old, login, Event::UserEvent(e), new, a) <==> user_event_outcome(
            old,
            login,
            e,
            new,
            a,
        ),
        event_outcome(old, login, Event::Other, new, a) <==> (new == old && a is Nothing),
{
}

/// A whole sign-in from an idle loop: the request is accepted, the window
/// opens, the user leaves the login site, the requested URL loads, and the
/// page that carries the code answers it; the loop is then idle again and
/// accepts the next request.
pub proof fn law_sign_in_completes(
    login: Seq<char>,
    request: String,
    away: String,
    code_page: String,
    code: Seq<char>,
    next_request: String,
    s1: Option<State>,
    s2: Option<State>,
    s3: Option<State>,
    s4: Option<State>,
    s5: Option<State>,
    s6: Option<State>,
    s7: Option<State>,
    a1: Action,
    a2: Action,
    a3: Action,
    a4: Action,
    a5: Action,
    a6: Action,
    a7: Action,
    a8: Action,
)
    requires
        event_outcome(None, login, Event::UserEvent(UserEvent::RequestGetCode(request)), s1, a1),
        event_outcome(s1, login, Event::UserEvent(UserEvent::StateChanged), s2, a2),
        window_opened_outcome(s2, Ok(()), s3, a3),
        url_origin_text(away@) is Some,
        !on_login_site(login, away@),
        event_outcome(s3, login, Event::UserEvent(UserEvent::PageLoading(away)), s4, a4),
        event_outcome(s4, login, Event::UserEvent(UserEvent::StateChanged), s5, a5),
        url_loaded_outcome(s5, Ok(()), a6),
        url_query_pairs(code_page@) is Some,
        code_in_pairs(url_query_pairs(code_page@)->0) == Ok::<Option<Seq<char>>, Seq<char>>(
            Some(code),
        ),
        event_outcome(s5, login, Event::UserEvent(UserEvent::PageLoading(code_page)), s6, a7),
        event_outcome(s6, login, Event::UserEvent(UserEvent::RequestGetCode(next_request)), s7, a8),
    ensures
        a1 is Accept,
        a2 is OpenWindow,
        a3 is Notify,
        a4 is Notify,
        a5 matches Action::LoadUrl(u) && u@ == request@,
        a6 is Nothing,
        a7 matches Action::Reply(Ok(v)) && v@ == code,
        s6 is None,
        a8 is Accept,
        s7 == Some(State { phase: Phase::Begin, url: next_request }),
{
}

/// While the code is awaited, a page whose query has no pair named `code`
/// or `err` (however many other pairs it has, none included) is ignored:
/// the request stays as it is and the loop is asked for nothing. This holds
/// of the event step and of the step on the parse result of the query.
pub proof fn law_page_without_answer_is_ignored(
    old: Option<State>,
    login: Seq<char>,
    page: String,
    parsed: Result<Vec<(String, String)>, url::ParseError>,
    new: Option<State>,
    a: Action,
)
    requires
        old is Some,
        old->0.phase == Phase::GetCode,
    ensures
        (url_query_pairs(page@) is Some && (forall|j: int|
            0 <= j < url_query_pairs(page@)->0.len() ==> url_query_pairs(page@)->0[j].0
                != "code"@ && url_query_pairs(page@)->0[j].0 != "err"@) && event_outcome(
            old,
            login,
            Event::UserEvent(UserEvent::PageLoading(page)),
            new,
            a,
        )) ==> (new == old && a is Nothing),
        (parsed is Ok && (forall|j: int|
            0 <= j < parsed->Ok_0.deep_view().len() ==> parsed->Ok_0.deep_view()[j].0 != "code"@
                && parsed->Ok_0.deep_view()[j].0 != "err"@) && code_page_outcome(
            old,
            parsed,
            new,
            a,
        )) ==> (new == old && a is Nothing),
{
    if url_query_pairs(page@) is Some && (forall|j: int|
        0 <= j < url_query_pairs(page@)->0.len() ==> url_query_pairs(page@)->0[j].0 != "code"@
            && url_query_pairs(page@)->0[j].0 != "err"@) {
        law_no_answer_without_code_or_err(url_query_pairs(page@)->0);
    }
    if parsed is Ok && (forall|j: int|
        0 <= j < parsed->Ok_0.deep_view().len() ==> parsed->Ok_0.deep_view()[j].0 != "code"@
            && parsed->Ok_0.deep_view()[j].0 != "err"@) {
        law_no_answer_without_code_or_err(parsed->Ok_0.deep_view());
    }
}

/// A page whose first pair named `code` or `err` is a `code` pair at `k`
/// answers with that pair's value, whole: reading the page gives it, and
/// while the code is awaited the event step replies it and ends the request.
pub proof fn law_first_code_is_answered_whole(
    old: Option<State>,
    login: Seq<char>,
    page: String,
    k: int,
    r: Result<Option<String>, AuthCodeError>,
    new: Option<State>,
    a: Action,
)
    requires
        url_query_pairs(page@) is Some,
        0 <= k < url_query_pairs(page@)->0.len(),
        url_query_pairs(page@)->0[k].0 == "code"@,
        forall|j: int|
            0 <= j < k ==> url_query_pairs(page@)->0[j].0 != "code"@ && url_query_pairs(
                page@,
            )->0[j].0 != "err"@,
    ensures
        get_code_outcome(page@, r) ==> (r matches Ok(Some(v)) && v@ == url_query_pairs(
            page@,
        )->0[k].1),
        (old is Some && old->0.phase == Phase::GetCode && event_outcome(
            old,
            login,
            Event::UserEvent(UserEvent::PageLoading(page)),
            new,
            a,
        )) ==> (new is None && (a matches Action::Reply(Ok(v)) && v@ == url_query_pairs(
            page@,
        )->0[k].1)),
{
    law_first_answer_wins(url_query_pairs(page@)->0, k);
}

/// A page whose first pair named `code` or `err` is an `err` pair at `k`
/// fails with that pair's value, whole: reading the page gives it as
/// `Failed`, and while the code is awaited the event step replies it and
/// keeps the request.
pub proof fn law_first_err_is_answered_whole(
    old: Option<State>,
    login: Seq<char>,
    page: String,
    k: int,
    r: Result<Option<String>, AuthCodeError>,
    new: Option<State>,
    a: Action,
)
    requires
        url_query_pairs(page@) is Some,
        0 <= k < url_query_pairs(page@)->0.len(),
        url_query_pairs(page@)->0[k].0 == "err"@,
        forall|j: int|
            0 <= j < k ==> url_query_pairs(page@)->0[j].0 != "code"@ && url_query_pairs(
                page@,
            )->0[j].0 != "err"@,
    ensures
        get_code_outcome(page@, r) ==> (r matches Err(AuthCodeError::Failed(v)) && v@
            == url_query_pairs(page@)->0[k].1),
        (old is Some && old->0.phase == Phase::GetCode && event_outcome(
            old,
            login,
            Event::UserEvent(UserEvent::PageLoading(page)),
            new,
            a,
        )) ==> (new == old && (a matches Action::Reply(Err(AuthCodeError::Failed(v))) && v@
            == url_query_pairs(page@)->0[k].1)),
{
    assert("code"@ != "err"@) by {
        reveal_strlit("code");
        reveal_strlit("err");
        assert("code"@.len() != "err"@.len());
    }
    law_first_answer_wins(url_query_pairs(page@)->0, k);
}

/// On the parsed query pairs `p` of a page, the first pair named `code` or
/// `err` decides, with its value whole: reading gives it (a `code` as the
/// answer, an `err` as `Failed`), and the step while the code is awaited
/// replies it, ending the request on a `code` and keeping it on an `err`.
pub proof fn law_first_answer_of_parsed_pairs(
    p: Vec<(String, String)>,
    k: int,
    r: Result<Option<String>, AuthCodeError>,
    old: Option<State>,
    new: Option<State>,
    a: Action,
)
    requires
        0 <= k < p.deep_view().len(),
        p.deep_view()[k].0 == "code"@ || p.deep_view()[k].0 == "err"@,
        forall|j: int|
            0 <= j < k ==> p.deep_view()[j].0 != "code"@ && p.deep_view()[j].0 != "err"@,
    ensures
        (query_answer(Ok(p), r) && p.deep_view()[k].0 == "code"@) ==> (r matches Ok(Some(v))
            && v@ == p.deep_view()[k].1),
        (query_answer(Ok(p), r) && p.deep_view()[k].0 == "err"@) ==> (r matches Err(
            AuthCodeError::Failed(v),
        ) && v@ == p.deep_view()[k].1),
        (code_page_outcome(old, Ok(p), new, a) && p.deep_view()[k].0 == "code"@) ==> (new is None
            && (a matches Action::Reply(Ok(v)) && v@ == p.deep_view()[k].1)),
        (code_page_outcome(old, Ok(p), new, a) && p.deep_view()[k].0 == "err"@) ==> (new == old
            && (a matches Action::Reply(Err(AuthCodeError::Failed(v))) && v@ == p.deep_view()[k].1)),
{
    assert("code"@ != "err"@) by {
        reveal_strlit("code");
        reveal_strlit("err");
        assert("code"@.len() != "err"@.len());
    }
    law_first_answer_wins(p.deep_view(), k);
}

} // verus!
