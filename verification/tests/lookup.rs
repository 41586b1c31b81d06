use cloudflare_ddns::http::{HttpReply, HttpRequest, Method};
use cloudflare_ddns::ip::{
    address_of, begin_lookup, fetch_public_ip, ip_service, Lookup, LookupStep, IP_SERVICE_COUNT,
};

fn body(text: &str) -> HttpReply {
    HttpReply::Response { status: 200, body: String::from(text) }
}

fn no_response() -> HttpReply {
    HttpReply::Failed { reason: String::from("unreachable") }
}

fn ask(source: usize, url: &str) -> LookupStep {
    LookupStep::Ask {
        state: Lookup { source },
        request: HttpRequest { method: Method::Get, url: String::from(url), bearer: None, body: None },
    }
}

fn run(replies: &[HttpReply]) -> LookupStep {
    let mut step = begin_lookup();
    for reply in replies {
        step = match step {
            LookupStep::Ask { state, .. } => fetch_public_ip(state, reply),
            ended => ended,
        };
    }
    step
}

#[test]
fn services_in_order_of_preference() {
    assert_eq!(IP_SERVICE_COUNT, 5);
    assert_eq!(ip_service(0), Some("https://api.ipify.org"));
    assert_eq!(ip_service(1), Some("https://ifconfig.me/ip"));
    assert_eq!(ip_service(2), Some("https://checkip.amazonaws.com"));
    assert_eq!(ip_service(3), Some("https://ipecho.net/plain"));
    assert_eq!(ip_service(4), Some("https://ident.me"));
    assert_eq!(ip_service(5), None);
    assert_eq!(ip_service(usize::MAX), None);
}

#[test]
fn address_of_trims_and_validates() {
    assert_eq!(address_of(&body("203.0.113.7\n")), Some(String::from("203.0.113.7")));
    assert_eq!(address_of(&body("  10.0.0.2  ")), Some(String::from("10.0.0.2")));
    assert_eq!(address_of(&body("not-an-ip")), None);
    assert_eq!(address_of(&body("")), None);
    assert_eq!(address_of(&body("10.0.0.2 10.0.0.3")), None);
    assert_eq!(address_of(&body("2001:db8::1")), None);
    assert_eq!(address_of(&no_response()), None);
}

#[test]
fn address_of_does_not_look_at_the_status() {
    let reply = HttpReply::Response { status: 500, body: String::from("192.0.2.9") };
    assert_eq!(address_of(&reply), Some(String::from("192.0.2.9")));
}

#[test]
fn lookup_begins_at_the_first_service() {
    assert_eq!(begin_lookup(), ask(0, "https://api.ipify.org"));
}

#[test]
fn first_source_wins_when_valid() {
    assert_eq!(
        run(&[body("198.51.100.4")]),
        LookupStep::Resolved { ip: String::from("198.51.100.4") }
    );
    assert_eq!(
        run(&[body("198.51.100.4"), body("203.0.113.7")]),
        LookupStep::Resolved { ip: String::from("198.51.100.4") }
    );
}

#[test]
fn malformed_source_is_skipped() {
    assert_eq!(
        run(&[body("not-an-ip"), body("203.0.113.7\n")]),
        LookupStep::Resolved { ip: String::from("203.0.113.7") }
    );
}

#[test]
fn sources_are_asked_in_list_order() {
    assert_eq!(run(&[no_response()]), ask(1, "https://ifconfig.me/ip"));
    assert_eq!(run(&[no_response(), body("::1")]), ask(2, "https://checkip.amazonaws.com"));
    assert_eq!(run(&[body(""), body(""), body("")]), ask(3, "https://ipecho.net/plain"));
    assert_eq!(run(&[body(""), body(""), body(""), body("x")]), ask(4, "https://ident.me"));
}

#[test]
fn last_source_can_still_answer() {
    assert_eq!(
        run(&[no_response(), no_response(), no_response(), no_response(), body("192.0.2.1")]),
        LookupStep::Resolved { ip: String::from("192.0.2.1") }
    );
}

#[test]
fn lookup_fails_when_no_source_answers() {
    assert_eq!(
        run(&[no_response(), body("nope"), body("1.2.3"), no_response(), body("256.1.1.1")]),
        LookupStep::Unavailable
    );
}

#[test]
fn lookup_past_the_last_service_gives_up() {
    assert_eq!(fetch_public_ip(Lookup { source: 4 }, &no_response()), LookupStep::Unavailable);
    assert_eq!(fetch_public_ip(Lookup { source: 9 }, &no_response()), LookupStep::Unavailable);
    assert_eq!(
        fetch_public_ip(Lookup { source: usize::MAX }, &no_response()),
        LookupStep::Unavailable
    );
    assert_eq!(
        fetch_public_ip(Lookup { source: usize::MAX }, &body("192.0.2.1")),
        LookupStep::Resolved { ip: String::from("192.0.2.1") }
    );
}
