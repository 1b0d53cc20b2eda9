//! The per-session audit hint: the timestamp of the last mutation a session
//! performed, carried inside a client-held token rather than stored here.

use vstd::prelude::*;

verus! {

/// The RFC 3339 text that the calendar library renders for a Unix-seconds
/// value; a function of the seconds value alone.
pub uninterp spec fn rfc3339_of(secs: int) -> Seq<char>;

/// The largest Unix-seconds value a timestamp may carry here:
/// 9999-12-31T23:59:59, well inside the range the calendar library accepts.
pub const MAX_AUDIT_SECS: i64 = 253402300799;

/// Relies on chrono's `DateTime::from_timestamp` and `DateTime::to_rfc3339`:
/// for a Unix-seconds value between 0 and `MAX_AUDIT_SECS` the conversion
/// succeeds, and the text depends on the seconds value alone.
#[verifier::external_body]
fn format_rfc3339(secs: i64) -> (r: String)
    requires
        0 <= secs <= MAX_AUDIT_SECS,
    ensures
        r@ == rfc3339_of(secs as int),
{
    chrono::DateTime::from_timestamp(secs, 0).unwrap().to_rfc3339()
}

/// Relies on chrono's `Utc::now`: the wall-clock time as Unix seconds.
/// Nothing is assumed of the value; callers handle every outcome.
#[verifier::external_body]
fn now_unix_secs() -> i64 {
    chrono::Utc::now().timestamp()
}

/// What reading a stored audit hint yields: the stored text itself, or the
/// sentinel where none is held.
pub open spec fn last_update_view(stored: Option<String>) -> Seq<char> {
    match stored {
        Some(s) => s@,
        None => "never"@,
    }
}

/// Stamps sessions with the time of their last mutation. It holds no state
/// of its own: the timestamp travels inside a signed token that the session
/// layer gives out to and verifies against the client, so the service stays
/// stateless. This core sees only the verified payload: a token that is
/// absent, unparsable or wrongly signed reaches it as `None`.
pub struct AuditTracker {}

impl AuditTracker {
    /// The token payload recording a mutation at the given instant: its
    /// RFC 3339 rendering.
    pub fn record_update(now_secs: i64) -> (r: String)
        requires
            0 <= now_secs <= MAX_AUDIT_SECS,
        ensures
            r@ == rfc3339_of(now_secs as int),
    {
        format_rfc3339(now_secs)
    }

    /// The token payload recording a mutation happening now. The clock's
    /// answer is clamped into the representable range, so some in-range
    /// instant is always rendered.
    pub fn record_update_now() -> (r: String)
        ensures
            exists|s: int| 0 <= s <= MAX_AUDIT_SECS && r@ == rfc3339_of(s),
    {
        let t = now_unix_secs();
        let clamped: i64 = if t < 0 {
            0
        } else if t > MAX_AUDIT_SECS {
            MAX_AUDIT_SECS
        } else {
            t
        };
        Self::record_update(clamped)
    }

    /// Reads the audit hint out of a verified token payload. A missing
    /// payload — the token was absent, unparsable or wrongly signed — is no
    /// error: it degrades to the sentinel `"never"`.
    pub fn last_update(stored: Option<String>) -> (r: String)
        ensures
            r@ == last_update_view(stored),
    {
        match stored {
            Some(s) => s,
            None => "never".to_owned(),
        }
    }
}

/// Law: reading the hint straight after recording one yields exactly the
/// recorded timestamp text, and a session that never recorded one reads the
/// sentinel.
pub proof fn lemma_record_then_read(payload: String, secs: int)
    requires
        payload@ == rfc3339_of(secs),
    ensures
        last_update_view(Some(payload)) == rfc3339_of(secs),
        last_update_view(None::<String>) == "never"@,
{
}

} // verus!
