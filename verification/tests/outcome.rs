use fes::dispatch::{Dispatcher, Step};
use fes::outcome::{classify, received, Failure, Header, ProbeOutcome, Response, Success};
use fes::route::{diagnostic, settle, Action, DIAGNOSTIC_PREFIX};
use fes::target::Target;
use fes::transcript::{locate, render, LocationError};

fn response(code: u16, headers: Vec<Header>, body: &[u8]) -> Response {
    Response {
        final_url: "http://example.com/admin".to_string(),
        status_code: code,
        headers,
        body: body.to_vec(),
    }
}

fn content_type() -> Vec<Header> {
    vec![Header { name: "Content-Type".to_string(), value: "text/html".to_string() }]
}

#[test]
fn a_received_response_is_a_success_with_its_reason_phrase() {
    let target = Target::new("http://example.com", "/admin");
    let outcome = classify(target, Ok(response(200, content_type(), b"hi")));
    assert_eq!(
        outcome,
        ProbeOutcome::Success(Success {
            final_url: "http://example.com/admin".to_string(),
            status_code: 200,
            status_reason: "OK".to_string(),
            headers: content_type(),
            body: b"hi".to_vec(),
        })
    );
}

fn reason_of(code: u16) -> String {
    match classify(Target::new("http://h", "/"), Ok(response(code, Vec::new(), b""))) {
        ProbeOutcome::Success(success) => {
            assert_eq!(success.status_code, code);
            success.status_reason
        }
        ProbeOutcome::Failure(_) => panic!("a response is a success"),
    }
}

#[test]
fn every_status_code_is_a_success() {
    assert_eq!(reason_of(100), "Continue");
    assert_eq!(reason_of(204), "No Content");
    assert_eq!(reason_of(301), "Moved Permanently");
    assert_eq!(reason_of(404), "Not Found");
    assert_eq!(reason_of(418), "I'm a teapot");
    assert_eq!(reason_of(500), "Internal Server Error");
    assert_eq!(reason_of(511), "Network Authentication Required");
}

#[test]
fn a_status_code_without_reason_phrase_gets_the_empty_phrase() {
    assert_eq!(reason_of(299), "");
    assert_eq!(reason_of(999), "");
    assert_eq!(reason_of(99), "");
    assert_eq!(reason_of(1000), "");
    assert_eq!(reason_of(0), "");
    assert_eq!(reason_of(65535), "");
}

#[test]
fn received_takes_the_phrase_it_is_given() {
    let given = received(response(404, content_type(), b"x"), Some("Nowhere".to_string()));
    assert_eq!(given.status_reason, "Nowhere");
    assert_eq!(given.status_code, 404);
    assert_eq!(given.final_url, "http://example.com/admin");
    assert_eq!(given.headers, content_type());
    assert_eq!(given.body, b"x".to_vec());
    let none = received(response(404, Vec::new(), b""), None);
    assert_eq!(none.status_reason, "");
}

#[test]
fn an_error_of_the_client_is_a_failure_of_that_target() {
    let target = Target::new("http://example.com", "/admin");
    let outcome = classify(target.clone(), Err("operation timed out".to_string()));
    assert_eq!(
        outcome,
        ProbeOutcome::Failure(Failure {
            target,
            error_description: "operation timed out".to_string(),
        })
    );
}

#[test]
fn diagnostic_names_the_target_and_the_error() {
    let failure = Failure {
        target: Target::new("http://example.com", "/admin"),
        error_description: "connection refused".to_string(),
    };
    assert_eq!(DIAGNOSTIC_PREFIX, "Got an error: ");
    assert_eq!(diagnostic(&failure), "Got an error: http://example.com/admin: connection refused");
}

#[test]
fn a_success_is_written_below_its_site_directory() {
    let target = Target::new("http://example.com", "/admin");
    let outcome = classify(target.clone(), Ok(response(200, content_type(), b"hi")));
    match settle("fes_out", &target, &outcome) {
        Ok(Action::Write(file)) => {
            assert_eq!(file.location.directory, "fes_out/example.com");
            assert_eq!(
                file.location.file_name,
                "42dd37a1c802bce6bf83d9393ace4f7b03047e0ba2cd747493db424a619df723"
            );
            let text = String::from_utf8(file.contents).unwrap();
            let lines: Vec<&str> = text.split('\n').collect();
            assert_eq!(lines[0], "http://example.com/admin");
            assert!(lines.contains(&"< 200 OK"));
            assert!(lines.contains(&"< Content-Type: text/html"));
            assert_eq!(*lines.last().unwrap(), "hi");
        }
        other => panic!("expected a write, got {:?}", other),
    }
}

#[test]
fn two_urls_give_two_files_in_two_site_directories() {
    let urls = ["http://a.example", "https://b.example:8443"];
    let mut dispatcher = Dispatcher::new(urls.len(), 1, 1).unwrap();
    let mut written = Vec::new();
    let mut in_flight: Vec<Target> = Vec::new();
    loop {
        match dispatcher.next() {
            Step::Start { path, url } => {
                assert_eq!(path, 0);
                in_flight.push(Target::new(urls[url], "/x"));
                assert!(in_flight.len() <= 1);
            }
            Step::Wait => {
                let target = in_flight.remove(0);
                assert!(dispatcher.complete());
                let outcome = classify(target.clone(), Ok(response(200, Vec::new(), b"body")));
                match settle("out", &target, &outcome) {
                    Ok(Action::Write(file)) => written.push(file.location),
                    other => panic!("expected a write, got {:?}", other),
                }
            }
            Step::Finished => break,
        }
    }
    assert_eq!(written.len(), 2);
    assert_eq!(written[0], locate("out", "http://a.example/x").unwrap());
    assert_eq!(written[1], locate("out", "https://b.example:8443/x").unwrap());
    assert_eq!(written[0].directory, "out/a.example");
    assert_eq!(written[1].directory, "out/b.example:8443");
    assert_eq!(
        written[0].file_name,
        "3e79a540943f299ad939c5b918062f99d8e3956d617ea0c7e6bb1eca63a8b63b"
    );
    assert_eq!(
        written[1].file_name,
        "fccd5f17768724e5cf8fe8be7c1394de79a3b87a802409101a13114015e1d744"
    );
}

#[test]
fn a_timeout_is_reported_and_the_batch_goes_on() {
    let urls = ["http://slow.example", "http://fast.example"];
    let mut dispatcher = Dispatcher::new(urls.len(), 1, 2).unwrap();
    let mut reports = Vec::new();
    let mut writes = Vec::new();
    let mut in_flight: Vec<Target> = Vec::new();
    loop {
        match dispatcher.next() {
            Step::Start { url, .. } => in_flight.push(Target::new(urls[url], "/x")),
            Step::Wait => {
                let target = in_flight.remove(0);
                assert!(dispatcher.complete());
                let reply = if target.base_url == "http://slow.example" {
                    Err("operation timed out".to_string())
                } else {
                    Ok(response(200, Vec::new(), b"ok"))
                };
                match settle("out", &target, &classify(target.clone(), reply)) {
                    Ok(Action::Write(file)) => writes.push(file),
                    Ok(Action::Report(line)) => reports.push(line),
                    Err(error) => panic!("unexpected {:?}", error),
                }
            }
            Step::Finished => break,
        }
    }
    assert_eq!(reports, vec!["Got an error: http://slow.example/x: operation timed out"]);
    assert_eq!(writes.len(), 1);
    assert_eq!(writes[0].location.directory, "out/fast.example");
}

#[test]
fn a_failure_is_never_written() {
    let target = Target::new("example.com", "");
    let outcome = classify(target.clone(), Err("builder error".to_string()));
    assert_eq!(
        settle("out", &target, &outcome),
        Ok(Action::Report("Got an error: example.com: builder error".to_string()))
    );
}

#[test]
fn a_success_without_site_directory_cannot_be_stored() {
    let target = Target::new("example.com", "");
    let outcome = classify(target.clone(), Ok(response(200, Vec::new(), b"")));
    assert_eq!(settle("out", &target, &outcome), Err(LocationError::NoSiteDirectory));
}

#[test]
fn the_same_url_gives_the_same_place_whatever_the_batch() {
    let one = Target::new("http://example.com", "/a/b");
    let two = Target::new("http://example.com/a", "/b");
    let first = classify(one.clone(), Ok(response(200, Vec::new(), b"first")));
    let second = classify(two.clone(), Ok(response(404, content_type(), b"second")));
    let first = match settle("out", &one, &first) {
        Ok(Action::Write(file)) => file,
        other => panic!("expected a write, got {:?}", other),
    };
    let second = match settle("out", &two, &second) {
        Ok(Action::Write(file)) => file,
        other => panic!("expected a write, got {:?}", other),
    };
    assert_eq!(first.location, second.location);
    assert_eq!(
        first.location.file_name,
        "649028aa54628de9cc4089da00b02c834875c6e987349bb5c20c6803d5fa2e05"
    );
}

#[test]
fn settle_writes_what_render_gives() {
    let target = Target::new("http://example.com", "/admin");
    let found = received(response(200, content_type(), b"hi"), Some("OK".to_string()));
    let expected = render("http://example.com/admin", &found);
    match settle("out", &target, &ProbeOutcome::Success(found)) {
        Ok(Action::Write(file)) => assert_eq!(file.contents, expected),
        other => panic!("expected a write, got {:?}", other),
    }
}
