use rdpmib::authcode::{
    after_page_origin, code_from_query, code_page_loaded, login_page_loaded, login_step,
    handle_begin, handle_event, handle_page_loading, handle_page_loading_get_code,
    handle_page_loading_login, handle_state_changed, handle_url_loaded, handle_user_event,
    handle_window_opened, login_origin, Action, AuthCodeError, Event, Phase, State, UserEvent,
    LOGIN_URL,
};

fn login() -> String {
    login_origin().expect("must parse")
}

fn state(phase: Phase, url: &str) -> Option<State> {
    Some(State { phase, url: url.to_string() })
}

fn phase_of(s: &Option<State>) -> Option<Phase> {
    s.as_ref().map(|s| s.phase)
}

fn url_of(s: &Option<State>) -> Option<String> {
    s.as_ref().map(|s| s.url.clone())
}

const REQUEST: &str = "https://login.microsoftonline.com/common/oauth2/v2.0/authorize?client_id=c";

#[test]
fn login_page_origin() {
    assert_eq!(LOGIN_URL, "https://login.microsoftonline.com/");
    assert_eq!(login(), "https://login.microsoftonline.com");
}

#[test]
fn code_is_read_from_the_query() {
    let r = handle_page_loading_get_code("https://localhost/redirect?state=1&code=abc&x=y");
    assert_eq!(r.unwrap(), Some("abc".to_string()));
}

#[test]
fn code_is_percent_decoded() {
    let r = handle_page_loading_get_code("ms-appx-web://Microsoft.AAD.BrokerPlugin/x?code=a%20b+c");
    assert_eq!(r.unwrap(), Some("a b c".to_string()));
}

#[test]
fn err_is_a_failure() {
    let r = handle_page_loading_get_code("https://localhost/?err=access_denied");
    assert!(matches!(r, Err(AuthCodeError::Failed(ref m)) if m == "access_denied"));
}

#[test]
fn first_of_code_and_err_wins() {
    let r = handle_page_loading_get_code("https://localhost/?err=no&code=yes");
    assert!(matches!(r, Err(AuthCodeError::Failed(ref m)) if m == "no"));
    let r = handle_page_loading_get_code("https://localhost/?code=yes&err=no&code=again");
    assert_eq!(r.unwrap(), Some("yes".to_string()));
}

#[test]
fn page_without_code_or_err() {
    assert_eq!(handle_page_loading_get_code("https://localhost/?error=x&codes=y").unwrap(), None);
    assert_eq!(handle_page_loading_get_code("https://localhost/").unwrap(), None);
}

#[test]
fn code_page_that_is_no_url() {
    let r = handle_page_loading_get_code("not a url");
    assert!(matches!(r, Err(AuthCodeError::UrlParse(url::ParseError::RelativeUrlWithoutBase))));
}

#[test]
fn login_site_keeps_login() {
    let s = State { phase: Phase::Login, url: REQUEST.to_string() };
    let r = handle_page_loading_login(s, &login(), "https://login.microsoftonline.com/common/login").unwrap();
    assert_eq!(r.phase, Phase::Login);
    assert_eq!(r.url, REQUEST);
}

#[test]
fn leaving_login_site_moves_to_get_code() {
    for page in [
        "https://login.live.com/",
        "http://login.microsoftonline.com/",
        "https://login.microsoftonline.com:8443/",
        "about:blank",
        "data:text/html,hello",
    ] {
        let s = State { phase: Phase::Login, url: REQUEST.to_string() };
        let r = handle_page_loading_login(s, &login(), page).unwrap();
        assert_eq!(r.phase, Phase::GetCode, "{page}");
        assert_eq!(r.url, REQUEST);
    }
}

#[test]
fn login_page_that_is_no_url() {
    let s = State { phase: Phase::Login, url: REQUEST.to_string() };
    let r = handle_page_loading_login(s, &login(), "http://[::1");
    assert!(matches!(r, Err(AuthCodeError::UrlParse(url::ParseError::InvalidIpv6Address))));
}

#[test]
fn opaque_login_origin_matches_nothing() {
    let s = State { phase: Phase::Login, url: REQUEST.to_string() };
    let r = handle_page_loading_login(s, &"null".to_string(), "about:blank").unwrap();
    assert_eq!(r.phase, Phase::GetCode);
}

#[test]
fn begin_moves_to_login_or_fails() {
    let s = State { phase: Phase::Begin, url: REQUEST.to_string() };
    let r = handle_begin(s, Ok(())).unwrap();
    assert_eq!(r.phase, Phase::Login);
    assert_eq!(r.url, REQUEST);
    let s = State { phase: Phase::Begin, url: REQUEST.to_string() };
    let r = handle_begin(s, Err(AuthCodeError::Os("no display".to_string())));
    assert!(matches!(r, Err(AuthCodeError::Os(ref m)) if m == "no display"));
}

#[test]
fn state_changed_actions() {
    assert!(matches!(handle_state_changed(&None), Ok(Action::Nothing)));
    assert!(matches!(handle_state_changed(&state(Phase::Begin, REQUEST)), Ok(Action::OpenWindow)));
    assert!(matches!(handle_state_changed(&state(Phase::Login, REQUEST)), Ok(Action::Nothing)));
    assert!(
        matches!(handle_state_changed(&state(Phase::GetCode, REQUEST)), Ok(Action::LoadUrl(ref u)) if u == REQUEST)
    );
}

#[test]
fn whole_sign_in() {
    let login = login();
    let mut s = None;
    let a = handle_event(&mut s, &login, Event::UserEvent(UserEvent::RequestGetCode(REQUEST.to_string()))).unwrap();
    assert!(matches!(a, Action::Accept));
    assert_eq!(phase_of(&s), Some(Phase::Begin));

    let a = handle_event(&mut s, &login, Event::UserEvent(UserEvent::StateChanged)).unwrap();
    assert!(matches!(a, Action::OpenWindow));
    let a = handle_window_opened(&mut s, Ok(()));
    assert!(matches!(a, Action::Notify));
    assert_eq!(phase_of(&s), Some(Phase::Login));

    let a = handle_event(&mut s, &login, Event::UserEvent(UserEvent::StateChanged)).unwrap();
    assert!(matches!(a, Action::Nothing));
    let a = handle_event(&mut s, &login, Event::UserEvent(UserEvent::PageLoading(LOGIN_URL.to_string()))).unwrap();
    assert!(matches!(a, Action::Notify));
    assert_eq!(phase_of(&s), Some(Phase::Login));

    let a = handle_event(&mut s, &login, Event::UserEvent(UserEvent::PageLoading("https://www.office.com/".to_string()))).unwrap();
    assert!(matches!(a, Action::Notify));
    assert_eq!(phase_of(&s), Some(Phase::GetCode));
    assert_eq!(url_of(&s), Some(REQUEST.to_string()));

    let a = handle_event(&mut s, &login, Event::UserEvent(UserEvent::StateChanged)).unwrap();
    assert!(matches!(a, Action::LoadUrl(ref u) if u == REQUEST));
    let a = handle_url_loaded(&s, Ok(()));
    assert!(matches!(a, Action::Nothing));

    let a = handle_event(&mut s, &login, Event::UserEvent(UserEvent::PageLoading(REQUEST.to_string()))).unwrap();
    assert!(matches!(a, Action::Nothing));
    assert_eq!(phase_of(&s), Some(Phase::GetCode));

    let a = handle_event(&mut s, &login, Event::Other).unwrap();
    assert!(matches!(a, Action::Nothing));
    assert_eq!(phase_of(&s), Some(Phase::GetCode));

    let a = handle_event(&mut s, &login, Event::UserEvent(UserEvent::PageLoading("https://localhost/?code=C0DE".to_string()))).unwrap();
    assert!(matches!(a, Action::Reply(Ok(ref c)) if c == "C0DE"));
    assert!(s.is_none());
}

#[test]
fn busy_while_a_request_runs() {
    let login = login();
    for phase in [Phase::Begin, Phase::Login, Phase::GetCode] {
        let mut s = state(phase, REQUEST);
        let a = handle_user_event(&mut s, &login, UserEvent::RequestGetCode("https://other/".to_string())).unwrap();
        assert!(matches!(a, Action::RefuseBusy));
        assert_eq!(phase_of(&s), Some(phase));
        assert_eq!(url_of(&s), Some(REQUEST.to_string()));
    }
}

#[test]
fn close_ends_the_request() {
    let login = login();
    for phase in [Phase::Begin, Phase::Login, Phase::GetCode] {
        let mut s = state(phase, REQUEST);
        let a = handle_event(&mut s, &login, Event::CloseRequested).unwrap();
        assert!(matches!(a, Action::Nothing));
        assert!(s.is_none());
    }
    let mut s = None;
    assert!(matches!(handle_event(&mut s, &login, Event::CloseRequested).unwrap(), Action::Nothing));
    assert!(s.is_none());
}

#[test]
fn window_that_cannot_open_ends_the_request() {
    let mut s = state(Phase::Begin, REQUEST);
    let a = handle_window_opened(&mut s, Err(AuthCodeError::Wry("webkit".to_string())));
    assert!(matches!(a, Action::Reply(Err(AuthCodeError::Wry(ref m))) if m == "webkit"));
    assert!(s.is_none());
}

#[test]
fn window_opened_out_of_turn_changes_nothing() {
    let mut s = state(Phase::Login, REQUEST);
    assert!(matches!(handle_window_opened(&mut s, Ok(())), Action::Nothing));
    assert_eq!(phase_of(&s), Some(Phase::Login));
    let mut s = None;
    assert!(matches!(handle_window_opened(&mut s, Ok(())), Action::Nothing));
    assert!(s.is_none());
}

#[test]
fn url_that_cannot_load_is_answered() {
    let s = state(Phase::GetCode, REQUEST);
    let a = handle_url_loaded(&s, Err(AuthCodeError::Wry("load".to_string())));
    assert!(matches!(a, Action::Reply(Err(AuthCodeError::Wry(ref m))) if m == "load"));
    let s = state(Phase::Login, REQUEST);
    assert!(matches!(handle_url_loaded(&s, Err(AuthCodeError::Busy)), Action::Nothing));
}

#[test]
fn err_page_is_answered_and_request_stays() {
    let login = login();
    let mut s = state(Phase::GetCode, REQUEST);
    let a = handle_page_loading(&mut s, &login, "https://localhost/?err=denied").unwrap();
    assert!(matches!(a, Action::Reply(Err(AuthCodeError::Failed(ref m))) if m == "denied"));
    assert_eq!(phase_of(&s), Some(Phase::GetCode));
}

#[test]
fn bad_page_url_while_getting_code_keeps_request() {
    let login = login();
    let mut s = state(Phase::GetCode, REQUEST);
    let a = handle_page_loading(&mut s, &login, "::").unwrap();
    assert!(matches!(a, Action::Reply(Err(AuthCodeError::UrlParse(_)))));
    assert_eq!(phase_of(&s), Some(Phase::GetCode));
}

#[test]
fn bad_page_url_at_login_ends_request() {
    let login = login();
    let mut s = state(Phase::Login, REQUEST);
    let a = handle_page_loading(&mut s, &login, "::").unwrap();
    assert!(matches!(a, Action::Reply(Err(AuthCodeError::UrlParse(_)))));
    assert!(s.is_none());
}

#[test]
fn new_request_after_an_answer() {
    let login = login();
    let mut s = state(Phase::GetCode, REQUEST);
    handle_page_loading(&mut s, &login, "https://localhost/?code=1").unwrap();
    assert!(s.is_none());
    let a = handle_user_event(&mut s, &login, UserEvent::RequestGetCode("https://next/".to_string())).unwrap();
    assert!(matches!(a, Action::Accept));
    assert_eq!(url_of(&s), Some("https://next/".to_string()));
    assert_eq!(phase_of(&s), Some(Phase::Begin));
}

#[test]
fn error_messages() {
    assert_eq!(AuthCodeError::Busy.message(), "busy");
    assert_eq!(AuthCodeError::EventLoopClosed.message(), "event loop closed.");
    assert_eq!(AuthCodeError::Failed("x".to_string()).message(), "x");
    assert_eq!(AuthCodeError::Os("os".to_string()).message(), "os");
    assert_eq!(AuthCodeError::Wry("wry".to_string()).message(), "wry");
    assert_eq!(
        AuthCodeError::UrlParse(url::ParseError::EmptyHost).message(),
        url::ParseError::EmptyHost.to_string()
    );
    assert_eq!(
        AuthCodeError::Recv(std::sync::mpsc::RecvError).message(),
        std::sync::mpsc::RecvError.to_string()
    );
    let io = std::io::Error::new(std::io::ErrorKind::Other, "disk");
    assert_eq!(AuthCodeError::Io(io).message(), "disk");
}

#[test]
fn query_answer_keeps_the_parse_error() {
    let r = code_from_query(Err(url::ParseError::InvalidPort));
    assert!(matches!(r, Err(AuthCodeError::UrlParse(url::ParseError::InvalidPort))));
    let pairs = vec![("a".to_string(), "1".to_string()), ("code".to_string(), "z".to_string())];
    assert_eq!(code_from_query(Ok(pairs)).unwrap(), Some("z".to_string()));
}

#[test]
fn login_step_keeps_the_parse_error() {
    let s = State { phase: Phase::Login, url: REQUEST.to_string() };
    let r = login_step(s, &login(), Err(url::ParseError::EmptyHost));
    assert!(matches!(r, Err(AuthCodeError::UrlParse(url::ParseError::EmptyHost))));
    let s = State { phase: Phase::Login, url: REQUEST.to_string() };
    let r = login_step(s, &login(), Ok("https://example.com".to_string())).unwrap();
    assert_eq!(r.phase, Phase::GetCode);
}

#[test]
fn same_origin_outside_login_step_keeps_state() {
    let s = State { phase: Phase::GetCode, url: REQUEST.to_string() };
    let r = after_page_origin(s, &login(), &login());
    assert_eq!(r.phase, Phase::GetCode);
}

#[test]
fn page_steps_answer_the_parse_error() {
    let mut s = state(Phase::Login, REQUEST);
    let a = login_page_loaded(&mut s, &login(), Err(url::ParseError::RelativeUrlWithoutBase));
    assert!(matches!(a, Action::Reply(Err(AuthCodeError::UrlParse(url::ParseError::RelativeUrlWithoutBase)))));
    assert!(s.is_none());

    let mut s = state(Phase::Login, REQUEST);
    let a = login_page_loaded(&mut s, &login(), Ok("https://example.com".to_string()));
    assert!(matches!(a, Action::Notify));
    assert_eq!(phase_of(&s), Some(Phase::GetCode));

    let mut s = state(Phase::GetCode, REQUEST);
    let a = code_page_loaded(&mut s, Err(url::ParseError::InvalidIpv4Address));
    assert!(matches!(a, Action::Reply(Err(AuthCodeError::UrlParse(url::ParseError::InvalidIpv4Address)))));
    assert_eq!(phase_of(&s), Some(Phase::GetCode));

    let mut s = state(Phase::GetCode, REQUEST);
    let a = code_page_loaded(&mut s, Ok(vec![("code".to_string(), "k".to_string())]));
    assert!(matches!(a, Action::Reply(Ok(ref c)) if c == "k"));
    assert!(s.is_none());
}

#[test]
fn errors_convert_from_their_causes() {
    let e: AuthCodeError = url::ParseError::EmptyHost.into();
    assert!(matches!(e, AuthCodeError::UrlParse(url::ParseError::EmptyHost)));
    let e: AuthCodeError = std::sync::mpsc::RecvError.into();
    assert!(matches!(e, AuthCodeError::Recv(_)));
    let e: AuthCodeError = std::io::Error::new(std::io::ErrorKind::Other, "x").into();
    assert!(matches!(e, AuthCodeError::Io(_)));
}

#[test]
fn login_page_step_outside_login_state() {
    let s = State { phase: Phase::GetCode, url: REQUEST.to_string() };
    let r = handle_page_loading_login(s, &login(), "not a url");
    assert!(matches!(r, Err(AuthCodeError::UrlParse(url::ParseError::RelativeUrlWithoutBase))));
    let s = State { phase: Phase::Begin, url: REQUEST.to_string() };
    let r = handle_page_loading_login(s, &login(), "https://login.microsoftonline.com/x").unwrap();
    assert_eq!(r.phase, Phase::Begin);
    assert_eq!(r.url, REQUEST);
}
