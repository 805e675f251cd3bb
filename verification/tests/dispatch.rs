use couchbase_shell::dispatch::before_sending;
use couchbase_shell::dispatch::classify;
use couchbase_shell::dispatch::deadline;
use couchbase_shell::dispatch::expired;
use couchbase_shell::dispatch::remaining;
use couchbase_shell::dispatch::settle;
use couchbase_shell::dispatch::CapellaRequest;
use couchbase_shell::dispatch::ManagementRequest;
use couchbase_shell::dispatch::Outcome;
use couchbase_shell::dispatch::Request;
use couchbase_shell::dispatch::Response;
use couchbase_shell::dispatch::Verb;
use couchbase_shell::error::CoreError;

fn response(status: u16, content: &str) -> Response {
    Response { status, content: content.to_string() }
}

#[test]
fn success_codes_yield_the_body() {
    for status in [200, 201, 202] {
        assert_eq!(classify(response(status, "{\"ok\":true}")), Ok("{\"ok\":true}".to_string()));
    }
    assert_eq!(classify(response(200, "")), Ok(String::new()));
}

#[test]
fn other_codes_yield_the_code_and_the_body_as_they_came() {
    for status in [0, 100, 199, 203, 204, 301, 400, 401, 404, 500, 503, 65535] {
        assert_eq!(
            classify(response(status, "Requested resource not found.\r\n")),
            Err(CoreError::UnexpectedStatusCode {
                code: status,
                body: "Requested resource not found.\r\n".to_string(),
            })
        );
    }
}

#[test]
fn an_outcome_is_a_body_or_an_error_of_its_kind() {
    assert_eq!(settle(Outcome::Answered(response(202, "done"))), Ok("done".to_string()));
    assert_eq!(
        settle(Outcome::Answered(response(404, "gone"))),
        Err(CoreError::UnexpectedStatusCode { code: 404, body: "gone".to_string() })
    );
    assert_eq!(
        settle(Outcome::Failed { detail: "connection refused".to_string() }),
        Err(CoreError::TransportError { detail: "connection refused".to_string() })
    );
    assert_eq!(
        settle(Outcome::DeadlineExceeded),
        Err(CoreError::TransportError {
            detail: "the deadline passed before the request completed".to_string(),
        })
    );
    assert_eq!(settle(Outcome::Cancelled), Err(CoreError::Cancelled));
}

#[test]
fn the_deadline_is_now_plus_the_timeout() {
    assert_eq!(deadline(1000, 250), 1250);
    assert_eq!(deadline(0, 0), 0);
    assert_eq!(deadline(5, 0), 5);
}

#[test]
fn a_deadline_beyond_the_last_instant_is_the_last_instant() {
    assert_eq!(deadline(u64::MAX, 1), u64::MAX);
    assert_eq!(deadline(u64::MAX - 10, 10), u64::MAX);
    assert_eq!(deadline(u64::MAX - 10, 11), u64::MAX);
    assert_eq!(deadline(1, u64::MAX), u64::MAX);
}

#[test]
fn a_deadline_has_passed_once_it_is_reached() {
    assert!(!expired(1250, 1249));
    assert!(expired(1250, 1250));
    assert!(expired(1250, 2000));
    assert_eq!(remaining(1250, 1000), 250);
    assert_eq!(remaining(1250, 1250), 0);
    assert_eq!(remaining(1250, 9999), 0);
}

#[test]
fn management_requests_have_their_paths() {
    assert_eq!(
        (ManagementRequest::GetBucket { name: "beer".to_string() }).request(),
        Request { verb: Verb::Get, path: "/bucket/beer".to_string(), payload: None }
    );
    assert_eq!(
        ManagementRequest::GetBuckets.request(),
        Request { verb: Verb::Get, path: "/buckets".to_string(), payload: None }
    );
    assert_eq!(
        (ManagementRequest::UpdateBucket {
            name: "beer".to_string(),
            payload: "ramQuotaMB=100".to_string(),
        })
        .request(),
        Request {
            verb: Verb::Put,
            path: "/bucket/beer".to_string(),
            payload: Some("ramQuotaMB=100".to_string()),
        }
    );
    assert_eq!(
        ManagementRequest::IndexStatus.request(),
        Request { verb: Verb::Get, path: "/indexStatus".to_string(), payload: None }
    );
}

#[test]
fn control_plane_requests_have_their_paths() {
    assert_eq!(
        (CapellaRequest::GetClusters { name: "prod".to_string() }).request(),
        Request { verb: Verb::Get, path: "/clusters?name=prod".to_string(), payload: None }
    );
    assert_eq!(
        (CapellaRequest::GetBuckets { cluster_id: "c-1".to_string() }).request(),
        Request { verb: Verb::Get, path: "/clusters/c-1/buckets".to_string(), payload: None }
    );
    assert_eq!(
        (CapellaRequest::UpdateBucket { cluster_id: "c-1".to_string(), payload: "[]".to_string() })
            .request(),
        Request {
            verb: Verb::Put,
            path: "/clusters/c-1/buckets".to_string(),
            payload: Some("[]".to_string()),
        }
    );
}

#[test]
fn a_request_is_not_sent_once_it_is_cancelled_or_late() {
    assert_eq!(before_sending(false, 1250, 1000), None);
    assert_eq!(before_sending(true, 1250, 1000), Some(Outcome::Cancelled));
    assert_eq!(before_sending(false, 1250, 1250), Some(Outcome::DeadlineExceeded));
    assert_eq!(before_sending(false, 1250, 1300), Some(Outcome::DeadlineExceeded));
    assert_eq!(before_sending(true, 1250, 1300), Some(Outcome::Cancelled));
}
