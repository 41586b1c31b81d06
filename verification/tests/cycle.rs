use cloudflare_ddns::cloudflare::{Cloudflare, ProviderError, RecordInfo};
use cloudflare_ddns::config::Config;
use cloudflare_ddns::cycle::{
    begin_checks, begin_update, check_all_info, decide, update, Check, CheckStep, Cycle,
    CycleError, CycleOutcome, CycleStep,
};
use cloudflare_ddns::http::{HttpReply, HttpRequest, Method};
use cloudflare_ddns::ip::Lookup;

fn cf() -> Cloudflare {
    Cloudflare::new(Config {
        cloudflare_api_token: String::from("secret"),
        cloudflare_zone_id: String::from("z1"),
        cloudflare_record_id: String::from("r9"),
        update_interval_secs: 300,
    })
}

fn ok(body: &str) -> HttpReply {
    HttpReply::Response { status: 200, body: String::from(body) }
}

fn status(code: u16) -> HttpReply {
    HttpReply::Response { status: code, body: String::new() }
}

fn no_response() -> HttpReply {
    HttpReply::Failed { reason: String::from("down") }
}

fn record(content: &str) -> HttpReply {
    let mut body = String::from(r#"{"result":{"content":""#);
    body.push_str(content);
    body.push_str(r#""}}"#);
    ok(&body)
}

/// Hands the replies to a cycle one by one; gives every request that was
/// asked for and the step the cycle stands at.
fn run(cf: &Cloudflare, replies: &[HttpReply]) -> (Vec<HttpRequest>, CycleStep) {
    let mut requests = Vec::new();
    let mut step = begin_update(cf);
    for reply in replies {
        step = match step {
            CycleStep::Ask { state, request } => {
                requests.push(request);
                update(cf, state, reply)
            }
            ended => ended,
        };
    }
    if let CycleStep::Ask { request, .. } = &step {
        requests.push(request.clone());
    }
    (requests, step)
}

fn writes(requests: &[HttpRequest]) -> Vec<String> {
    requests
        .iter()
        .filter(|request| request.method == Method::Put)
        .map(|request| request.body.as_ref().unwrap().content.clone())
        .collect()
}

fn done(outcome: CycleOutcome) -> CycleStep {
    CycleStep::Done { outcome }
}

fn failed(error: CycleError) -> CycleStep {
    done(CycleOutcome::Failed { error })
}

#[test]
fn cycle_begins_with_the_credential() {
    let cf = cf();
    assert_eq!(
        begin_update(&cf),
        CycleStep::Ask { state: Cycle::Checking { check: Check::Token }, request: cf.token_request() }
    );
    assert_eq!(
        begin_checks(&cf),
        CheckStep::Ask { state: Check::Token, request: cf.token_request() }
    );
}

#[test]
fn verifications_follow_in_order() {
    let cf = cf();
    assert_eq!(
        check_all_info(&cf, Check::Token, &status(200)),
        CheckStep::Ask { state: Check::Zone, request: cf.zone_request() }
    );
    assert_eq!(
        check_all_info(&cf, Check::Zone, &status(200)),
        CheckStep::Ask { state: Check::Record, request: cf.record_request() }
    );
    assert_eq!(check_all_info(&cf, Check::Record, &status(200)), CheckStep::Passed);
}

#[test]
fn invalid_credential_fails_the_cycle() {
    let cf = cf();
    let (requests, step) = run(&cf, &[status(401), status(200), status(200)]);
    assert_eq!(step, failed(CycleError::CredentialInvalid));
    assert_eq!(requests, vec![cf.token_request()]);
}

#[test]
fn invalid_zone_fails_the_cycle() {
    let cf = cf();
    let (requests, step) = run(&cf, &[status(200), status(403)]);
    assert_eq!(step, failed(CycleError::ZoneInvalid));
    assert_eq!(requests, vec![cf.token_request(), cf.zone_request()]);
}

#[test]
fn unanswered_verification_fails_the_cycle() {
    let cf = cf();
    let error = ProviderError::Transport { reason: String::from("down") };
    for answered in 0..3 {
        let mut replies = vec![status(200); answered];
        replies.push(no_response());
        let (requests, step) = run(&cf, &replies);
        assert_eq!(step, failed(CycleError::ProviderReadFailed { error: error.clone() }));
        assert_eq!(requests.len(), answered + 1);
    }
}

#[test]
fn missing_record_is_listed_once() {
    let cf = cf();
    let listing = ok(r#"{"result":[{"id":"a","name":"example.org","type":"A","content":"10.0.0.1"}]}"#);
    let (requests, step) = run(&cf, &[status(200), status(200), status(404), listing, status(200)]);
    assert_eq!(
        step,
        failed(CycleError::RecordInvalid {
            listing: Ok(vec![RecordInfo {
                id: String::from("a"),
                name: String::from("example.org"),
                record_type: String::from("A"),
                content: String::from("10.0.0.1"),
            }]),
        })
    );
    assert_eq!(
        requests,
        vec![cf.token_request(), cf.zone_request(), cf.record_request(), cf.listing_request()]
    );
    let listings = requests.iter().filter(|request| **request == cf.listing_request()).count();
    assert_eq!(listings, 1);
}

#[test]
fn failed_listing_keeps_the_failure() {
    let cf = cf();
    let (_, step) = run(&cf, &[status(200), status(200), status(404), no_response()]);
    assert_eq!(
        step,
        failed(CycleError::RecordInvalid {
            listing: Err(ProviderError::Transport { reason: String::from("down") }),
        })
    );
    let (_, step) = run(&cf, &[status(200), status(200), status(404), status(500)]);
    assert_eq!(
        step,
        failed(CycleError::RecordInvalid { listing: Err(ProviderError::Status { status: 500 }) })
    );
    let (_, step) = run(&cf, &[status(200), status(200), status(404), ok("{}")]);
    assert_eq!(step, failed(CycleError::RecordInvalid { listing: Ok(Vec::new()) }));
}

#[test]
fn unreadable_record_fails_the_cycle() {
    let cf = cf();
    let (requests, step) = run(&cf, &[status(200), status(200), status(200), ok("{}")]);
    assert_eq!(step, failed(CycleError::ProviderReadFailed { error: ProviderError::MissingContent }));
    assert_eq!(requests.len(), 4);
    assert_eq!(requests[3], cf.record_request());
    let (_, step) = run(&cf, &[status(200), status(200), status(200), ok("oops")]);
    assert_eq!(step, failed(CycleError::ProviderReadFailed { error: ProviderError::MalformedBody }));
}

#[test]
fn unchanged_address_is_never_written() {
    let cf = cf();
    let (requests, step) =
        run(&cf, &[status(200), status(200), status(200), record("10.0.0.1"), ok("10.0.0.1\n")]);
    assert_eq!(step, done(CycleOutcome::NoChangeNeeded));
    assert_eq!(writes(&requests), Vec::<String>::new());
    assert_eq!(requests.len(), 5);
}

#[test]
fn repeated_cycles_with_unchanged_address_write_nothing() {
    let cf = cf();
    for _ in 0..3 {
        let (requests, step) = run(
            &cf,
            &[status(200), status(200), status(200), record("10.0.0.1"), no_response(), ok("10.0.0.1")],
        );
        assert_eq!(step, done(CycleOutcome::NoChangeNeeded));
        assert!(writes(&requests).is_empty());
    }
}

#[test]
fn changed_address_is_written_once() {
    let cf = cf();
    let (requests, step) = run(
        &cf,
        &[status(200), status(200), status(200), record("10.0.0.1"), ok("10.0.0.2"), status(200), status(200)],
    );
    assert_eq!(
        step,
        done(CycleOutcome::Updated { from: String::from("10.0.0.1"), to: String::from("10.0.0.2") })
    );
    assert_eq!(writes(&requests), vec![String::from("10.0.0.2")]);
    assert_eq!(requests.len(), 6);
    assert_eq!(requests[5], cf.update_request("10.0.0.2"));
}

#[test]
fn write_is_asked_for_while_its_reply_is_awaited() {
    let cf = cf();
    let (requests, step) =
        run(&cf, &[status(200), status(200), status(200), record("10.0.0.1"), ok("10.0.0.2")]);
    assert_eq!(
        step,
        CycleStep::Ask {
            state: Cycle::Writing { from: String::from("10.0.0.1"), to: String::from("10.0.0.2") },
            request: cf.update_request("10.0.0.2"),
        }
    );
    assert_eq!(writes(&requests), vec![String::from("10.0.0.2")]);
}

#[test]
fn addresses_are_compared_as_texts() {
    let cf = cf();
    let (requests, step) =
        run(&cf, &[status(200), status(200), status(200), record("010.0.0.1"), ok("10.0.0.1")]);
    assert!(matches!(step, CycleStep::Ask { state: Cycle::Writing { .. }, .. }));
    assert_eq!(writes(&requests), vec![String::from("10.0.0.1")]);
}

#[test]
fn rejected_write_fails_the_cycle() {
    let cf = cf();
    let (requests, step) = run(
        &cf,
        &[status(200), status(200), status(200), record("10.0.0.1"), ok("10.0.0.2"), status(400)],
    );
    assert_eq!(
        step,
        failed(CycleError::WriteFailed { error: ProviderError::WriteRejected { status: 400 } })
    );
    assert_eq!(writes(&requests), vec![String::from("10.0.0.2")]);
}

#[test]
fn unavailable_resolver_fails_the_cycle() {
    let cf = cf();
    let mut replies = vec![status(200), status(200), status(200), record("10.0.0.1")];
    replies.extend(vec![no_response(); 5]);
    let (requests, step) = run(&cf, &replies);
    assert_eq!(step, failed(CycleError::ResolverUnavailable));
    assert_eq!(requests.len(), 9);
    assert!(writes(&requests).is_empty());
    assert_eq!(requests[4].url, "https://api.ipify.org");
    assert_eq!(requests[4].bearer, None);
    assert_eq!(requests[8].url, "https://ident.me");
}

#[test]
fn second_source_gives_the_address_to_write() {
    let cf = cf();
    let (requests, step) = run(
        &cf,
        &[
            status(200),
            status(200),
            status(200),
            record("10.0.0.1"),
            ok("not-an-ip"),
            ok("203.0.113.7\n"),
            status(200),
        ],
    );
    assert_eq!(
        step,
        done(CycleOutcome::Updated {
            from: String::from("10.0.0.1"),
            to: String::from("203.0.113.7"),
        })
    );
    assert_eq!(writes(&requests), vec![String::from("203.0.113.7")]);
}

#[test]
fn decide_writes_only_on_a_difference() {
    let cf = cf();
    assert_eq!(
        decide(&cf, String::from("10.0.0.1"), String::from("10.0.0.1")),
        done(CycleOutcome::NoChangeNeeded)
    );
    assert_eq!(
        decide(&cf, String::from("10.0.0.1"), String::from("10.0.0.2")),
        CycleStep::Ask {
            state: Cycle::Writing { from: String::from("10.0.0.1"), to: String::from("10.0.0.2") },
            request: cf.update_request("10.0.0.2"),
        }
    );
}

#[test]
fn update_steps_from_any_state() {
    let cf = cf();
    assert_eq!(
        update(&cf, Cycle::Reading, &record("10.0.0.1")),
        CycleStep::Ask {
            state: Cycle::Resolving { current: String::from("10.0.0.1"), lookup: Lookup { source: 0 } },
            request: HttpRequest {
                method: Method::Get,
                url: String::from("https://api.ipify.org"),
                bearer: None,
                body: None,
            },
        }
    );
    assert_eq!(
        update(
            &cf,
            Cycle::Resolving { current: String::from("10.0.0.1"), lookup: Lookup { source: 4 } },
            &no_response()
        ),
        failed(CycleError::ResolverUnavailable)
    );
    assert_eq!(
        update(
            &cf,
            Cycle::Writing { from: String::from("a"), to: String::from("b") },
            &no_response()
        ),
        failed(CycleError::WriteFailed {
            error: ProviderError::Transport { reason: String::from("down") }
        })
    );
}

#[test]
fn outcomes_and_errors_are_reported() {
    assert!(!CycleOutcome::NoChangeNeeded.is_failure());
    assert!(!CycleOutcome::Updated { from: String::new(), to: String::new() }.is_failure());
    assert!(CycleOutcome::Failed { error: CycleError::ZoneInvalid }.is_failure());
    assert_eq!(CycleError::CredentialInvalid.message(), "API token is invalid");
    assert_eq!(CycleError::ZoneInvalid.message(), "Zone ID is invalid");
    assert_eq!(
        CycleError::RecordInvalid { listing: Ok(Vec::new()) }.message(),
        "Record ID is invalid"
    );
    assert_eq!(
        CycleError::ResolverUnavailable.message(),
        "No valid public IP address could be determined"
    );
    assert_eq!(
        CycleError::ProviderReadFailed { error: ProviderError::MissingContent }.message(),
        "No IP found in record"
    );
    assert_eq!(
        CycleError::WriteFailed { error: ProviderError::WriteRejected { status: 429 } }.message(),
        "Failed to update IP: status 429"
    );
}
