use rs_proxmox::client::{Builder, Config, ProxmoxClient};
use rs_proxmox::format::{format_cookie, format_login_name, format_origin, format_uri};
use rs_proxmox::session::{
    Action, Call, Encoding, Event, Method, Phase, RequestError, ACCEPT_INVALID_CERTS,
    CSRF_PREVENTION_TOKEN_KEY,
    HTTP_METHOD_ERROR, PROXMOX_LOGIN_PATH, PROXMOX_REST_API_PATH, PVE_AUTH_COOKIE_KEY,
};
use rs_proxmox::vm;

fn root_at_pam() -> ProxmoxClient {
    let mut b = Builder::new(Config::default());
    b.set_user("root")
        .set_password("secret")
        .set_realm("pam")
        .set_base_url("10.0.0.1")
        .set_port("8006");
    match b.build() {
        Ok(c) => c,
        Err(e) => panic!("{}", e),
    }
}

fn reply(ticket: Option<&str>, token: Option<&str>) -> Event {
    Event::LoginReplied {
        ticket: ticket.map(|s| s.to_string()),
        csrf_prevention_token: token.map(|s| s.to_string()),
    }
}

fn login_action() -> Action {
    Action::Login {
        url: "https://10.0.0.1:8006/api2/json/access/ticket".to_string(),
        username: "root@pam".to_string(),
        password: "secret".to_string(),
        accept_invalid_certs: true,
    }
}

#[test]
fn formats_are_exact() {
    assert_eq!(format_cookie("PVEAuthCookie", "PVE:root@pam:1234"), "PVEAuthCookie=PVE:root@pam:1234");
    assert_eq!(format_uri("10.0.0.1", "8006", "access/ticket"), "https://10.0.0.1:8006/access/ticket");
    assert_eq!(format_uri("", "", ""), "https://:/");
    assert_eq!(format_origin("pve.local", "443"), "https://pve.local:443");
    assert_eq!(format_login_name("root", "pam"), "root@pam");
    assert_eq!(format_cookie("", ""), "=");
}

#[test]
fn constants_are_as_the_server_expects() {
    assert_eq!(PROXMOX_REST_API_PATH, "api2/json");
    assert_eq!(PROXMOX_LOGIN_PATH, "api2/json/access/ticket");
    assert_eq!(PVE_AUTH_COOKIE_KEY, "PVEAuthCookie");
    assert_eq!(CSRF_PREVENTION_TOKEN_KEY, "CSRFPreventionToken");
    assert_eq!(HTTP_METHOD_ERROR, "http method should be GET, POST, PUT or DELETE");
    assert!(ACCEPT_INVALID_CERTS);
}

#[test]
fn the_four_methods_are_read_from_their_names() {
    assert_eq!(Method::from_name("GET"), Ok(Method::Get));
    assert_eq!(Method::from_name("POST"), Ok(Method::Post));
    assert_eq!(Method::from_name("PUT"), Ok(Method::Put));
    assert_eq!(Method::from_name("DELETE"), Ok(Method::Delete));
    for m in [Method::Get, Method::Post, Method::Put, Method::Delete] {
        assert_eq!(Method::from_name(m.as_str()), Ok(m));
    }
    assert_eq!(Method::Delete.as_str(), "DELETE");
}

#[test]
fn other_methods_are_refused_with_the_fixed_message() {
    for name in ["PATCH", "HEAD", "OPTIONS", "TRACE", "CONNECT", "get", "Post", "", "GET ", "DELETED"] {
        assert_eq!(
            Method::from_name(name),
            Err("http method should be GET, POST, PUT or DELETE".to_string())
        );
    }
}

#[test]
fn only_get_writes_its_payload_into_the_query() {
    assert_eq!(Method::Get.payload_encoding(), Encoding::Query);
    assert_eq!(Method::Post.payload_encoding(), Encoding::Form);
    assert_eq!(Method::Put.payload_encoding(), Encoding::Form);
    assert_eq!(Method::Delete.payload_encoding(), Encoding::Form);
}

#[test]
fn get_is_sent_with_cookie_and_header() {
    let client = root_at_pam();
    let (mut call, action) = client.request(Method::Get, "api2/json/nodes");
    assert_eq!(call.phase, Phase::LoggingIn);
    assert_eq!(action, login_action());

    let action = client.advance(&mut call, reply(Some("PVE:..."), Some("abcd")));
    assert_eq!(call.phase, Phase::Authenticated);
    assert_eq!(
        action,
        Some(Action::OpenSession {
            header_name: "CSRFPreventionToken".to_string(),
            header_value: "abcd".to_string(),
            cookie: "PVEAuthCookie=PVE:...".to_string(),
            origin: "https://10.0.0.1:8006".to_string(),
            accept_invalid_certs: true,
        })
    );

    let action = client.advance(&mut call, Event::TransportReady);
    assert_eq!(call.phase, Phase::Dispatching);
    assert_eq!(
        action,
        Some(Action::Send {
            method: Method::Get,
            url: "https://10.0.0.1:8006/api2/json/nodes".to_string(),
            encoding: Encoding::Query,
        })
    );

    let action = client.advance(&mut call, Event::Responded);
    assert_eq!(call.phase, Phase::Completed);
    assert_eq!(action, Some(Action::Deliver));
    assert!(call.is_over());
    assert_eq!(call.method, Method::Get);
    assert_eq!(call.path, "api2/json/nodes");
}

#[test]
fn clone_is_posted_as_a_form() {
    let client = root_at_pam();
    let (mut call, action) = vm::clone::post(&client, "pve1", "100");
    assert_eq!(action, login_action());
    assert_eq!(call.method, Method::Post);
    assert_eq!(call.path, "nodes/pve1/qemu/100/clone");
    assert!(client.advance(&mut call, reply(Some("PVE:..."), Some("abcd"))).is_some());
    let action = client.advance(&mut call, Event::TransportReady);
    assert_eq!(
        action,
        Some(Action::Send {
            method: Method::Post,
            url: "https://10.0.0.1:8006/nodes/pve1/qemu/100/clone".to_string(),
            encoding: Encoding::Form,
        })
    );
}

#[test]
fn put_and_delete_are_sent_as_forms() {
    let client = root_at_pam();
    for m in [Method::Put, Method::Delete] {
        let (mut call, _) = client.request(m, "api2/json/nodes/pve1/qemu/100/config");
        client.advance(&mut call, reply(Some("t"), Some("k")));
        match client.advance(&mut call, Event::TransportReady) {
            Some(Action::Send { method, encoding, .. }) => {
                assert_eq!(method, m);
                assert_eq!(encoding, Encoding::Form);
            }
            other => panic!("{:?}", other),
        }
    }
}

#[test]
fn login_timeout_fails_the_call_before_anything_is_sent() {
    let client = root_at_pam();
    let (mut call, _) = client.request(Method::Get, "api2/json/nodes");
    let action = client.advance(&mut call, Event::LoginFailed);
    assert_eq!(action, Some(Action::Fail(RequestError::Authentication)));
    assert_eq!(call.phase, Phase::Failed);
    assert!(call.is_over());
    for event in [
        Event::Start,
        Event::TransportReady,
        Event::Responded,
        Event::LoginFailed,
        reply(Some("t"), Some("k")),
    ] {
        assert_eq!(client.advance(&mut call, event), None);
        assert_eq!(call.phase, Phase::Failed);
    }
}

#[test]
fn login_without_ticket_or_token_is_an_authentication_error() {
    let client = root_at_pam();
    for event in [
        reply(None, Some("abcd")),
        reply(Some("PVE:..."), None),
        reply(None, None),
        Event::LoginUnreadable,
    ] {
        let (mut call, _) = client.request(Method::Post, "api2/json/nodes");
        let action = client.advance(&mut call, event);
        assert_eq!(action, Some(Action::Fail(RequestError::Authentication)));
        assert_eq!(call.phase, Phase::Failed);
        assert_eq!(client.advance(&mut call, Event::TransportReady), None);
    }
}

#[test]
fn transport_failures_are_transport_errors() {
    let client = root_at_pam();
    let (mut call, _) = client.request(Method::Get, "api2/json/nodes");
    client.advance(&mut call, reply(Some("t"), Some("k")));
    assert_eq!(
        client.advance(&mut call, Event::TransportFailed),
        Some(Action::Fail(RequestError::Transport))
    );
    assert_eq!(call.phase, Phase::Failed);

    let (mut call, _) = client.request(Method::Get, "api2/json/nodes");
    client.advance(&mut call, reply(Some("t"), Some("k")));
    client.advance(&mut call, Event::TransportReady);
    assert_eq!(
        client.advance(&mut call, Event::SendFailed),
        Some(Action::Fail(RequestError::Transport))
    );
    assert_eq!(call.phase, Phase::Failed);
}

#[test]
fn an_event_out_of_turn_changes_nothing() {
    let client = root_at_pam();
    let mut call = Call::new(Method::Get, "api2/json/nodes");
    assert_eq!(call.phase, Phase::Unauthenticated);
    assert!(!call.is_over());
    assert_eq!(client.advance(&mut call, Event::Responded), None);
    assert_eq!(client.advance(&mut call, reply(Some("t"), Some("k"))), None);
    assert_eq!(call.phase, Phase::Unauthenticated);
    assert_eq!(client.advance(&mut call, Event::Start), Some(login_action()));
    assert_eq!(call.phase, Phase::LoggingIn);
    assert_eq!(client.advance(&mut call, Event::Start), None);
    assert_eq!(client.advance(&mut call, Event::TransportReady), None);
    assert_eq!(call.phase, Phase::LoggingIn);
}

#[test]
fn each_call_logs_in_again() {
    let client = root_at_pam();
    let (_, first) = client.request(Method::Get, "api2/json/nodes");
    let (call, second) = client.request(Method::Delete, "api2/json/nodes/pve1/qemu/100");
    assert_eq!(first, login_action());
    assert_eq!(second, login_action());
    assert_eq!(call.phase, Phase::LoggingIn);
}

#[test]
fn resource_paths_are_exact() {
    assert_eq!(vm::path("pve1", "100"), "nodes/pve1/qemu/100");
    assert_eq!(vm::clone::path("pve1", "100"), "nodes/pve1/qemu/100/clone");
    assert_eq!(vm::config::path("pve1", "100"), "nodes/pve1/qemu/100/config");
    assert_eq!(vm::pending::path("n", "7"), "nodes/n/qemu/7/pending");
}

fn event_of(kind: usize) -> Event {
    match kind {
        0 => Event::Start,
        1 => reply(Some("t"), Some("k")),
        2 => reply(None, Some("k")),
        3 => Event::LoginUnreadable,
        4 => Event::LoginFailed,
        5 => Event::TransportReady,
        6 => Event::TransportFailed,
        7 => Event::Responded,
        _ => Event::SendFailed,
    }
}

#[test]
fn whatever_is_reported_the_actions_come_in_order() {
    let client = root_at_pam();
    for code in 0..(9usize * 9 * 9 * 9 * 9) {
        let mut call = Call::new(Method::Put, "api2/json/nodes");
        let mut actions: Vec<Action> = Vec::new();
        let mut rest = code;
        for _ in 0..5 {
            if let Some(action) = client.advance(&mut call, event_of(rest % 9)) {
                actions.push(action);
            }
            rest /= 9;
        }
        assert!(actions.len() <= 4);
        for (i, action) in actions.iter().enumerate() {
            match action {
                Action::Login { .. } => assert_eq!(i, 0),
                Action::OpenSession { .. } => assert_eq!(i, 1),
                Action::Send { .. } => {
                    assert_eq!(i, 2);
                    assert!(matches!(actions[1], Action::OpenSession { .. }));
                }
                Action::Deliver => assert_eq!(i, 3),
                Action::Fail(_) => {
                    assert!(i >= 1);
                    assert_eq!(i, actions.len() - 1);
                    assert_eq!(call.phase, Phase::Failed);
                }
            }
        }
    }
}
