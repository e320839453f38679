use oura::client::{next_day, read_reply, OuraClient, Reply, Request};
use oura::error::OuraError;

fn client() -> OuraClient {
    OuraClient::new(Some("SECRET".to_string())).unwrap()
}

fn request(endpoint: &str, start: &str, end_date: &str) -> Request {
    Request {
        url: format!("https://api.ouraring.com/v2/usercollection/{endpoint}"),
        token: "SECRET".to_string(),
        start_date: start.to_string(),
        end_date: end_date.to_string(),
    }
}

#[test]
fn the_day_after_is_written_as_a_date() {
    assert_eq!(next_day("2024-02-03"), Ok("2024-02-04".to_string()));
    assert_eq!(next_day("2024-02-29"), Ok("2024-03-01".to_string()));
    assert_eq!(next_day("2023-12-31"), Ok("2024-01-01".to_string()));
    assert_eq!(next_day("0999-12-31"), Ok("1000-01-01".to_string()));
    assert_eq!(next_day("9999-12-31"), Ok("+10000-01-01".to_string()));
    assert_eq!(next_day("2023-02-29"), Err(OuraError::InvalidDate));
    assert_eq!(next_day("yesterday"), Err(OuraError::InvalidDate));
    assert_eq!(next_day(""), Err(OuraError::InvalidDate));
}

#[test]
fn a_client_needs_a_token() {
    assert_eq!(OuraClient::new(None), Err(OuraError::MissingCredential));
    assert_eq!(
        OuraClient::new(Some("abc".to_string())),
        Ok(OuraClient { token: "abc".to_string() })
    );
}

#[test]
fn a_range_request_ends_on_the_day_after() {
    let client = client();
    for endpoint in ["daily_sleep", "daily_readiness", "daily_activity", "sleep", "daily_stress"] {
        assert_eq!(
            client.fetch_range(endpoint, "2024-02-01", "2024-02-03"),
            Ok(request(endpoint, "2024-02-01", "2024-02-04"))
        );
    }
    assert_eq!(
        client.daily_sleep_range("2024-02-01", "2024-02-03"),
        Ok(request("daily_sleep", "2024-02-01", "2024-02-04"))
    );
    assert_eq!(
        client.daily_readiness_range("2024-02-01", "2024-02-03"),
        Ok(request("daily_readiness", "2024-02-01", "2024-02-04"))
    );
    assert_eq!(
        client.daily_activity_range("2024-02-01", "2024-02-03"),
        Ok(request("daily_activity", "2024-02-01", "2024-02-04"))
    );
}

#[test]
fn a_day_request_covers_that_day() {
    let client = client();
    assert_eq!(client.daily_sleep("2024-02-29"), Ok(request("daily_sleep", "2024-02-29", "2024-03-01")));
    assert_eq!(
        client.daily_readiness("2024-02-29"),
        Ok(request("daily_readiness", "2024-02-29", "2024-03-01"))
    );
    assert_eq!(
        client.daily_activity("2024-02-29"),
        Ok(request("daily_activity", "2024-02-29", "2024-03-01"))
    );
    assert_eq!(client.sleep("2024-02-29"), Ok(request("sleep", "2024-02-29", "2024-03-01")));
    assert_eq!(client.daily_stress("2024-02-29"), Ok(request("daily_stress", "2024-02-29", "2024-03-01")));
    assert_eq!(client.fetch("heartrate", "2024-12-31"), Ok(request("heartrate", "2024-12-31", "2025-01-01")));
    assert_eq!(client.raw("daily_spo2", "2024-12-31"), Ok(request("daily_spo2", "2024-12-31", "2025-01-01")));
}

#[test]
fn a_request_for_no_day_is_refused() {
    let client = client();
    assert_eq!(client.daily_sleep("2024-02-30"), Err(OuraError::InvalidDate));
    assert_eq!(client.daily_readiness("today"), Err(OuraError::InvalidDate));
    assert_eq!(client.daily_activity(""), Err(OuraError::InvalidDate));
    assert_eq!(client.sleep("2024-2-3"), Err(OuraError::InvalidDate));
    assert_eq!(client.daily_stress("20240203"), Err(OuraError::InvalidDate));
    assert_eq!(client.raw("sleep", "2024-13-01"), Err(OuraError::InvalidDate));
    assert_eq!(client.fetch_range("sleep", "2024-02-01", "2024-02-31"), Err(OuraError::InvalidDate));
    assert_eq!(
        client.fetch_range("sleep", "whenever", "2024-02-03"),
        Ok(request("sleep", "whenever", "2024-02-04"))
    );
}

#[test]
fn replies_are_judged_by_their_status() {
    let body = "{\"data\":[]}".to_string();
    assert_eq!(read_reply(Reply::Answer { status: 200, body: body.clone() }), Ok(body.clone()));
    assert_eq!(read_reply(Reply::Answer { status: 204, body: String::new() }), Ok(String::new()));
    assert_eq!(read_reply(Reply::Answer { status: 299, body: body.clone() }), Ok(body.clone()));
    assert_eq!(
        read_reply(Reply::Answer { status: 199, body: body.clone() }),
        Err(OuraError::UpstreamError { status: 199, body: body.clone() })
    );
    assert_eq!(
        read_reply(Reply::Answer { status: 300, body: body.clone() }),
        Err(OuraError::UpstreamError { status: 300, body: body.clone() })
    );
    assert_eq!(
        read_reply(Reply::Answer { status: 401, body: "denied".to_string() }),
        Err(OuraError::UpstreamError { status: 401, body: "denied".to_string() })
    );
    assert_eq!(
        read_reply(Reply::Unreachable { detail: "dns".to_string() }),
        Err(OuraError::TransportFailure { detail: "dns".to_string() })
    );
}

#[test]
fn failures_have_their_messages() {
    assert_eq!(OuraError::InvalidDate.message(), "Invalid date format");
    assert_eq!(
        OuraError::TransportFailure { detail: "connection refused".to_string() }.message(),
        "Failed to reach Oura API: connection refused"
    );
    assert_eq!(
        OuraError::UpstreamError { status: 404, body: "{\"detail\":\"none\"}".to_string() }.message(),
        "Oura API returned 404: {\"detail\":\"none\"}"
    );
    assert_eq!(
        OuraError::DecodeFailure { detail: "missing field `data`".to_string() }.message(),
        "Failed to parse API response: missing field `data`"
    );
    assert_eq!(
        OuraError::MissingCredential.message(),
        "OURA_TOKEN not set. Get your token at https://cloud.ouraring.com/personal-access-tokens"
    );
}
