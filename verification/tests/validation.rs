use streamkey_gate::audit::AuditLog;
use streamkey_gate::credential::ParseError;
use streamkey_gate::credential::parse_composite;
use streamkey_gate::engine::StoreReply;
use streamkey_gate::engine::ValidationError;
use streamkey_gate::engine::ValidationRequest;
use streamkey_gate::engine::internal_error;
use streamkey_gate::engine::validate;
use streamkey_gate::engine::validate_at;
use streamkey_gate::expiry::is_expired;
use streamkey_gate::timezone::CivilInstant;
use streamkey_gate::timezone::to_target_zone;

fn request(ip: &str, name: &str) -> ValidationRequest {
    ValidationRequest {
        requester_ip: ip.to_string(),
        composite_name: name.to_string(),
    }
}

#[test]
fn parse_two_segments() {
    let c = parse_composite("alice/SECRET123").unwrap();
    assert_eq!(c.account, "alice");
    assert_eq!(c.secret, "SECRET123");
}

#[test]
fn parse_ignores_trailing_segments() {
    let c = parse_composite("a/b/c").unwrap();
    assert_eq!(c.account, "a");
    assert_eq!(c.secret, "b");
}

#[test]
fn parse_empty_segments() {
    let c = parse_composite("a/").unwrap();
    assert_eq!(c.account, "a");
    assert_eq!(c.secret, "");
    let c = parse_composite("/x").unwrap();
    assert_eq!(c.account, "");
    assert_eq!(c.secret, "x");
}

#[test]
fn parse_without_slash_is_malformed() {
    assert_eq!(parse_composite("bob").unwrap_err(), ParseError::MalformedComposite);
    assert_eq!(parse_composite("").unwrap_err(), ParseError::MalformedComposite);
}

#[test]
fn end_to_end_authorized() {
    let mut log = AuditLog::new();
    let req = request("1.2.3.4", "alice/SECRET123");
    let now = to_target_zone("01/01/2000, 12:00:00 AM").unwrap();
    let reply = StoreReply::Record("01/01/2099, 12:00:00 AM".to_string());
    let r = validate_at(&mut log, &req, reply, now);
    assert!(matches!(r, Ok(true)));
    let entries = log.snapshot();
    assert_eq!(entries.len(), 1);
    assert_eq!(entries[0].sequence, 1);
    assert_eq!(entries[0].subject, "alice/SECRET123");
    assert_eq!(entries[0].message, "Stream key accepted");
}

#[test]
fn end_to_end_expired() {
    let mut log = AuditLog::new();
    let req = request("1.2.3.4", "alice/SECRET123");
    let now = to_target_zone("01/01/2099, 12:00:00 AM").unwrap();
    let reply = StoreReply::Record("01/01/2000, 12:00:00 AM".to_string());
    let r = validate_at(&mut log, &req, reply, now);
    assert!(matches!(r, Ok(false)));
    let entries = log.snapshot();
    assert_eq!(entries.len(), 1);
    assert_eq!(entries[0].message, "Stream key expired");
}

#[test]
fn expiry_on_boundary_is_expired() {
    let mut log = AuditLog::new();
    let req = request("1.2.3.4", "alice/SECRET123");
    let now = to_target_zone("05/06/2030, 07:08:09 PM").unwrap();
    let reply = StoreReply::Record("05/06/2030, 07:08:09 PM".to_string());
    let r = validate_at(&mut log, &req, reply, now);
    assert!(matches!(r, Ok(false)));
    assert_eq!(log.snapshot()[0].message, "Stream key expired");
}

#[test]
fn no_record_is_not_authorized() {
    let mut log = AuditLog::new();
    let req = request("1.2.3.4", "alice/SECRET123");
    let r = validate_at(&mut log, &req, StoreReply::NoRecord, CivilInstant { seconds: 0 });
    assert!(matches!(r, Ok(false)));
    let entries = log.snapshot();
    assert_eq!(entries.len(), 1);
    assert_eq!(entries[0].subject, "alice/SECRET123");
    assert_eq!(entries[0].message, "Stream key not found");
}

#[test]
fn malformed_composite_is_logged_and_not_authorized() {
    let mut log = AuditLog::new();
    let req = request("1.2.3.4", "bob");
    let r = validate_at(&mut log, &req, StoreReply::NoRecord, CivilInstant { seconds: 0 });
    assert!(matches!(r, Ok(false)));
    let entries = log.snapshot();
    assert_eq!(entries.len(), 1);
    assert_eq!(entries[0].subject, "bob");
    assert_eq!(entries[0].message, "Stream key not found");
}

#[test]
fn store_failure_propagates_without_logging() {
    let mut log = AuditLog::new();
    let req = request("1.2.3.4", "alice/SECRET123");
    let reply = StoreReply::Failed("no connection".to_string());
    let r = validate_at(&mut log, &req, reply, CivilInstant { seconds: 0 });
    match r {
        Err(ValidationError::Store(words)) => assert_eq!(words, "no connection"),
        _ => panic!("expected a store error"),
    }
    assert_eq!(log.snapshot().len(), 0);
}

#[test]
fn corrupt_expiry_propagates_without_logging() {
    let mut log = AuditLog::new();
    let req = request("1.2.3.4", "alice/SECRET123");
    let reply = StoreReply::Record("yesterday".to_string());
    let r = validate_at(&mut log, &req, reply, CivilInstant { seconds: 0 });
    assert!(matches!(r, Err(ValidationError::TimeParse(_))));
    assert_eq!(log.snapshot().len(), 0);
}

#[test]
fn validate_uses_live_clock() {
    let mut log = AuditLog::new();
    let req = request("1.2.3.4", "alice/SECRET123");
    let reply = StoreReply::Record("01/01/2099, 12:00:00 AM".to_string());
    let r = validate(&mut log, &req, reply);
    assert!(matches!(r, Ok(true)));
    assert_eq!(log.snapshot()[0].message, "Stream key accepted");
}

#[test]
fn is_expired_boundary_and_order() {
    let t = to_target_zone("01/01/2000, 12:00:00 AM").unwrap();
    assert_eq!(is_expired("01/01/2000, 12:00:00 AM", t), Ok(true));
    let earlier = CivilInstant { seconds: t.seconds - 1 };
    assert_eq!(is_expired("01/01/2000, 12:00:00 AM", earlier), Ok(false));
    let later = CivilInstant { seconds: t.seconds + 1 };
    assert_eq!(is_expired("01/01/2000, 12:00:00 AM", later), Ok(true));
    assert!(is_expired("not a timestamp", t).is_err());
}

#[test]
fn internal_error_text() {
    assert_eq!(internal_error(), "Internal server error");
}
