//! Validation Engine: orchestrates the Credential Parser, the Record Store
//! Gateway's reply, the Expiry Evaluator and the Audit Log into one
//! authorization decision. Every business outcome — authorized, expired,
//! unmatched, malformed composite — records exactly one audit entry;
//! infrastructure and data-integrity failures record none and surface as
//! distinct errors. The gateway itself is an outside collaborator: the
//! transport queries it and hands the engine its reply as a plain value.

use crate::audit::AuditLog;
use crate::audit::appended_entry;
use crate::credential::ParseError;
use crate::credential::has_slash;
use crate::credential::parse_composite;
use crate::expiry::is_expired;
use crate::expiry::spec_expired;
use crate::timezone::CivilInstant;
use crate::timezone::TimeParseError;
use crate::timezone::expiry_instant_of;
use vstd::prelude::*;
use vstd::string::StrSliceExecFns;

verus! {

/// One validation attempt: who asks, and with which composite credential.
pub struct ValidationRequest {
    pub requester_ip: String,
    pub composite_name: String,
}

/// What the Record Store Gateway answered for one validation attempt.
pub enum StoreReply {
    /// The query itself failed: connectivity or a malformed query.
    Failed(String),
    /// No record matches the account, secret and requester IP under the
    /// store-side suspension and blacklist filters.
    NoRecord,
    /// The one matching record's stored expiry text.
    Record(String),
}

/// An attempt that ended in an error rather than a decision.
pub enum ValidationError {
    /// The gateway failed; the store's own words.
    Store(String),
    /// The matching record's stored expiry text denotes no instant:
    /// corrupt store data.
    TimeParse(TimeParseError),
}

/// The message recorded when no record matches (also for a malformed
/// composite, which is indistinguishable at the decision boundary).
pub open spec fn msg_not_found() -> Seq<char> {
    "Stream key not found"@
}

/// The message recorded when the matching record is expired.
pub open spec fn msg_expired() -> Seq<char> {
    "Stream key expired"@
}

/// The message recorded when the matching record authorizes the attempt.
pub open spec fn msg_accepted() -> Seq<char> {
    "Stream key accepted"@
}

/// The engine's decision table: the result of one attempt, and the audit
/// message it records (`None`: the attempt ends in an error and records
/// nothing), given the composite, the gateway's reply and the current
/// instant. A malformed composite never reaches the gateway, so its reply
/// is immaterial there.
pub open spec fn spec_decision(composite: Seq<char>, reply: StoreReply, now: CivilInstant) -> (
    Result<bool, ValidationError>,
    Option<Seq<char>>,
) {
    if !has_slash(composite) {
        (Ok(false), Some(msg_not_found()))
    } else {
        match reply {
            StoreReply::Failed(words) => (Err(ValidationError::Store(words)), None),
            StoreReply::NoRecord => (Ok(false), Some(msg_not_found())),
            StoreReply::Record(expiry_text) => match expiry_instant_of(expiry_text@) {
                Some(t) => if spec_expired(t, now) {
                    (Ok(false), Some(msg_expired()))
                } else {
                    (Ok(true), Some(msg_accepted()))
                },
                None => (Err(ValidationError::TimeParse(TimeParseError)), None),
            },
        }
    }
}

/// Resolve one validation attempt against the given current instant.
/// The result and the recorded message are exactly the decision table's;
/// a business outcome appends exactly one entry with the full composite as
/// subject, an error leaves the trail untouched.
pub fn validate_at(
    log: &mut AuditLog,
    request: &ValidationRequest,
    reply: StoreReply,
    now: CivilInstant,
) -> (r: Result<bool, ValidationError>)
    requires
        old(log).wf(),
        old(log).next_sequence() < u64::MAX,
    ensures
        final(log).wf(),
        r == spec_decision(request.composite_name@, reply, now).0,
        match spec_decision(request.composite_name@, reply, now).1 {
            Some(message) => appended_entry(
                *old(log),
                *final(log),
                request.composite_name@,
                message,
            ),
            None => *final(log) == *old(log),
        },
{
    match parse_composite(request.composite_name.as_str()) {
        Err(ParseError::MalformedComposite) => {
            log.append(request.composite_name.clone(), "Stream key not found".to_owned());
            Ok(false)
        },
        Ok(_) => match reply {
            StoreReply::Failed(words) => Err(ValidationError::Store(words)),
            StoreReply::NoRecord => {
                log.append(request.composite_name.clone(), "Stream key not found".to_owned());
                Ok(false)
            },
            StoreReply::Record(expiry_text) => match is_expired(expiry_text.as_str(), now) {
                Err(e) => Err(ValidationError::TimeParse(e)),
                Ok(true) => {
                    log.append(request.composite_name.clone(), "Stream key expired".to_owned());
                    Ok(false)
                },
                Ok(false) => {
                    log.append(request.composite_name.clone(), "Stream key accepted".to_owned());
                    Ok(true)
                },
            },
        },
    }
}

/// Resolve one validation attempt at the live clock. The expiry comparison
/// depends on that clock, so the contract holds for some current instant:
/// whatever the clock read, the result and the recorded message come from
/// one line of the decision table.
pub fn validate(log: &mut AuditLog, request: &ValidationRequest, reply: StoreReply) -> (r: Result<
    bool,
    ValidationError,
>)
    requires
        old(log).wf(),
        old(log).next_sequence() < u64::MAX,
    ensures
        final(log).wf(),
        exists|now: CivilInstant|
            #![trigger spec_decision(request.composite_name@, reply, now)]
            r == spec_decision(request.composite_name@, reply, now).0 && match spec_decision(
                request.composite_name@,
                reply,
                now,
            ).1 {
                Some(message) => appended_entry(
                    *old(log),
                    *final(log),
                    request.composite_name@,
                    message,
                ),
                None => *final(log) == *old(log),
            },
{
    let now = now_in_target_zone();
    validate_at(log, request, reply, now)
}

/// Relies on chrono's `Utc::now`: the current instant on the same scale the
/// converter normalizes expiry texts to (the target zone's wall clock read
/// back as an epoch instant leaves the scale unchanged). Depends on the
/// clock, so nothing is promised of the value.
#[verifier::external_body]
fn now_in_target_zone() -> CivilInstant {
    CivilInstant { seconds: chrono::Utc::now().timestamp() }
}

/// Body of the transport's catcher for an internal server error.
pub fn internal_error() -> (r: &'static str)
    ensures
        r@ == "Internal server error"@,
{
    "Internal server error"
}

} // verus!
