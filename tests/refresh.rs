use std::time::{SystemTime, UNIX_EPOCH};

use dropbox_credential::{
    token_grant, AuthError, Credential, RefreshCause, RefreshRequest, TokenGrant, TokenReply,
    TokenStep, REFRESH_MARGIN_SECS,
};

fn refreshable() -> Credential {
    Credential::Refreshable {
        access_token: None,
        expires_at: None,
        refresh_token: "rt".to_string(),
        client_id: "id".to_string(),
        client_secret: "secret".to_string(),
    }
}

fn request() -> RefreshRequest {
    RefreshRequest {
        refresh_token: "rt".to_string(),
        client_id: "id".to_string(),
        client_secret: "secret".to_string(),
    }
}

fn grant(token: &str, expires_in: u64) -> TokenGrant {
    TokenGrant { access_token: token.to_string(), expires_in }
}

fn unix_secs() -> i64 {
    SystemTime::now().duration_since(UNIX_EPOCH).unwrap().as_secs() as i64
}

#[test]
fn fixed_token_never_refreshes() {
    let mut c = Credential::Fixed { access_token: "T".to_string() };
    for now in [0, 1_000, i64::MAX] {
        assert!(c.step_at(now) == TokenStep::Ready("T".to_string()));
    }
    assert!(c.next_step() == TokenStep::Ready("T".to_string()));
    assert!(c.apply_refresh_at(Ok(grant("other", 10)), 5) == Ok("T".to_string()));
    assert!(c.apply_refresh_at(Err(RefreshCause::Malformed("bad".to_string())), 5) == Ok("T".to_string()));
    assert!(c == Credential::Fixed { access_token: "T".to_string() });
}

#[test]
fn first_call_refreshes_second_uses_cache() {
    let mut c = refreshable();
    assert!(c.step_at(1_000) == TokenStep::Refresh(request()));
    assert!(c.apply_refresh_at(Ok(grant("tok", 3600)), 1_000) == Ok("tok".to_string()));
    assert!(c == Credential::Refreshable {
        access_token: Some("tok".to_string()),
        expires_at: Some(4_600),
        refresh_token: "rt".to_string(),
        client_id: "id".to_string(),
        client_secret: "secret".to_string(),
        });
    assert!(c.step_at(1_010) == TokenStep::Ready("tok".to_string()));
}

#[test]
fn token_is_refreshed_within_the_margin() {
    let mut c = refreshable();
    c.apply_refresh_at(Ok(grant("tok", 3600)), 1_000).unwrap();
    assert!(c.is_fresh_at(4_600 - REFRESH_MARGIN_SECS - 1));
    assert!(!c.is_fresh_at(4_600 - REFRESH_MARGIN_SECS));
    assert!(c.step_at(4_600 - REFRESH_MARGIN_SECS) == TokenStep::Refresh(request()));
    assert!(c.step_at(10_000) == TokenStep::Refresh(request()));
}

#[test]
fn waiters_after_refresh_share_the_token() {
    let mut c = refreshable();
    c.apply_refresh_at(Ok(grant("shared", 600)), 100).unwrap();
    for t in 100..140 {
        assert!(c.step_at(t) == TokenStep::Ready("shared".to_string()));
    }
}

#[test]
fn failed_refresh_leaves_state_and_retries() {
    let mut c = refreshable();
    let r = c.apply_refresh_at(Err(RefreshCause::Status(500)), 1_000);
    assert!(r == Err(AuthError::RefreshFailed(RefreshCause::Status(500))));
    assert!(c == refreshable());
    assert!(c.step_at(1_001) == TokenStep::Refresh(request()));
    assert!(c.apply_refresh_at(Ok(grant("new", 100)), 1_002) == Ok("new".to_string()));
    assert!(c.step_at(1_003) == TokenStep::Ready("new".to_string()));
}

#[test]
fn failed_refresh_keeps_expired_token_unused() {
    let mut c = refreshable();
    c.apply_refresh_at(Ok(grant("old", 100)), 0).unwrap();
    let before = c.clone();
    let r = c.apply_refresh_at(Err(RefreshCause::Transport("down".to_string())), 500);
    assert!(r == Err(AuthError::RefreshFailed(RefreshCause::Transport("down".to_string()))));
    assert!(c == before);
    assert!(c.step_at(500) == TokenStep::Refresh(request()));
}

#[test]
fn expiry_saturates_at_the_largest_time() {
    let mut c = refreshable();
    c.apply_refresh_at(Ok(grant("tok", u64::MAX)), i64::MAX - 10).unwrap();
    match c {
        Credential::Refreshable { expires_at, .. } => assert!(expires_at == Some(i64::MAX)),
        _ => panic!("variant changed"),
    }
}

#[test]
fn refresh_by_the_clock() {
    let mut c = refreshable();
    assert!(c.next_step() == TokenStep::Refresh(request()));
    let before = unix_secs();
    assert!(c.apply_refresh(Ok(grant("tok", 3600))) == Ok("tok".to_string()));
    let after = unix_secs();
    match &c {
        Credential::Refreshable { expires_at: Some(at), .. } => {
            assert!(before + 3600 <= *at && *at <= after + 3600);
        }
        _ => panic!("no expiry recorded"),
    }
    assert!(c.next_step() == TokenStep::Ready("tok".to_string()));
}

#[test]
fn short_lived_grant_is_refreshed_at_once() {
    let mut c = refreshable();
    c.apply_refresh(Ok(grant("tok", 30))).unwrap();
    assert!(c.next_step() == TokenStep::Refresh(request()));
}

#[test]
fn request_body_is_form_encoded() {
    assert!(request().body() == "grant_type=refresh_token&refresh_token=rt&client_id=id&client_secret=secret");
}

#[test]
fn grant_from_success_reply() {
    let reply = TokenReply {
        status: 200,
        access_token: Some("tok".to_string()),
        expires_in: Some(14400),
        decode_error: None,
    };
    assert!(token_grant(Ok(reply)) == Ok(grant("tok", 14400)));
}

#[test]
fn grant_from_error_status() {
    let reply = TokenReply { status: 401, access_token: Some("tok".to_string()), expires_in: Some(1), decode_error: None };
    assert!(token_grant(Ok(reply)) == Err(RefreshCause::Status(401)));
    let reply = TokenReply { status: 199, access_token: None, expires_in: None, decode_error: None };
    assert!(token_grant(Ok(reply)) == Err(RefreshCause::Status(199)));
}

#[test]
fn grant_from_malformed_reply() {
    let reply = TokenReply { status: 200, access_token: None, expires_in: Some(1), decode_error: None };
    assert!(
        token_grant(Ok(reply))
            == Err(RefreshCause::Malformed(
                "access_token missing from the token response".to_string()
            ))
    );
    let reply = TokenReply { status: 299, access_token: Some("t".to_string()), expires_in: None, decode_error: None };
    assert!(
        token_grant(Ok(reply))
            == Err(RefreshCause::Malformed(
                "expires_in missing from the token response".to_string()
            ))
    );
}

#[test]
fn grant_from_undecodable_reply() {
    let reply = TokenReply {
        status: 200,
        access_token: Some("t".to_string()),
        expires_in: Some(5),
        decode_error: Some("expected value at line 1".to_string()),
    };
    assert!(
        token_grant(Ok(reply))
            == Err(RefreshCause::Malformed("expected value at line 1".to_string()))
    );
}

#[test]
fn grant_from_transport_error() {
    assert!(token_grant(Err("timeout".to_string())) == Err(RefreshCause::Transport("timeout".to_string())));
}
