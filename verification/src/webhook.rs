//! Webhook endpoints, the outbox records that feed the delivery worker, and
//! the validation a new endpoint must pass.

use vstd::prelude::*;

use crate::text::{trim, trimmed};

verus! {

/// A subscriber's endpoint. Soft-deactivated, never removed.
#[derive(Clone, Debug)]
pub struct WebhookEndpoint {
    pub id: u128,
    pub business_id: u128,
    pub url: String,
    pub active: bool,
    pub created_at: i64,
}

/// An endpoint as a caller asks for it to be created.
#[derive(Clone, Debug)]
pub struct CreateWebhookEndpointRequest {
    pub url: String,
}

/// An endpoint as it is shown to callers.
#[derive(Clone, Debug)]
pub struct WebhookEndpointResponse {
    pub id: u128,
    pub url: String,
    pub active: bool,
    pub created_at: i64,
}

impl WebhookEndpoint {
    /// This endpoint as shown to callers.
    pub fn to_response(self) -> (r: WebhookEndpointResponse)
        ensures
            r.id == self.id,
            r.url == self.url,
            r.active == self.active,
            r.created_at == self.created_at,
    {
        WebhookEndpointResponse {
            id: self.id,
            url: self.url,
            active: self.active,
            created_at: self.created_at,
        }
    }
}

/// Where an outbox record stands in its lifecycle. `Delivered` and `Failed`
/// are terminal.
#[derive(Clone, Copy, Debug, PartialEq, Eq, Structural)]
pub enum EventStatus {
    Pending,
    Delivered,
    Failed,
}

/// An outbox record: one notification owed to one endpoint for one
/// transaction. The payload is frozen at enqueue time.
#[derive(Clone, Debug)]
pub struct WebhookEvent {
    pub id: u128,
    pub endpoint_id: u128,
    pub transaction_id: u128,
    pub payload: String,
    pub status: EventStatus,
    pub attempts: i32,
    pub next_retry_at: Option<i64>,
    pub created_at: i64,
}

/// Why an endpoint request was refused.
#[derive(Clone, Copy, Debug, PartialEq, Eq)]
pub enum WebhookError {
    BadRequest(&'static str),
    Internal,
}

impl WebhookError {
    /// The HTTP status this failure is reported with.
    pub fn status_code(&self) -> (r: u16)
        ensures
            *self is BadRequest ==> r == 400,
            *self is Internal ==> r == 500,
    {
        match self {
            WebhookError::BadRequest(_) => 400,
            WebhookError::Internal => 500,
        }
    }

    /// The message shown to the caller.
    pub fn message(&self) -> (r: String)
        ensures
            *self matches WebhookError::BadRequest(m) ==> r@ == m@,
            *self is Internal ==> r@ == "Internal Server error"@,
    {
        match self {
            WebhookError::BadRequest(m) => String::from_str(m),
            WebhookError::Internal => String::from_str("Internal Server error"),
        }
    }
}

/// Whether `s` begins with `p`.
pub open spec fn has_prefix(s: Seq<char>, p: Seq<char>) -> bool {
    s.len() >= p.len() && s.subrange(0, p.len() as int) == p
}

fn starts_with(s: &str, p: &str) -> (r: bool)
    ensures
        r == has_prefix(s@, p@),
{
    let np = p.unicode_len();
    let ns = s.unicode_len();
    if ns < np {
        return false;
    }
    let mut i: usize = 0;
    while i < np
        invariant
            0 <= i <= np,
            np == p@.len(),
            ns == s@.len(),
            np <= ns,
            forall|j: int| 0 <= j < i ==> s@[j] == p@[j],
        decreases np - i,
    {
        if s.get_char(i) != p.get_char(i) {
            return false;
        }
        i = i + 1;
    }
    proof {
        assert(s@.subrange(0, np as int) =~= p@);
    }
    true
}

/// Whether a trimmed URL is acceptable: it names one of the two schemes the
/// worker can deliver to.
pub open spec fn spec_url_scheme_ok(t: Seq<char>) -> bool {
    has_prefix(t, "http://"@) || has_prefix(t, "https://"@)
}

/// Checks a subscriber URL: after trimming it must be nonempty and carry an
/// `http` or `https` scheme.
pub fn validate_url(url: &str) -> (r: Result<(), WebhookError>)
    ensures
        trimmed(url@).len() == 0 ==> (r matches Err(e) && e matches WebhookError::BadRequest(m)
            && m@ == "url is required"@),
        trimmed(url@).len() > 0 && !spec_url_scheme_ok(trimmed(url@)) ==> (r matches Err(e)
            && e matches WebhookError::BadRequest(m) && m@
            == "url must start with http:// or https://"@),
        r is Ok <==> (trimmed(url@).len() > 0 && spec_url_scheme_ok(trimmed(url@))),
{
    let u = trim(url);
    if u.is_empty() {
        return Err(WebhookError::BadRequest("url is required"));
    }
    if !(starts_with(u, "http://") || starts_with(u, "https://")) {
        return Err(WebhookError::BadRequest("url must start with http:// or https://"));
    }
    Ok(())
}

/// Everything a new endpoint must satisfy; today that is its URL.
pub fn validate_create_endpoint(url: &str) -> (r: Result<(), WebhookError>)
    ensures
        trimmed(url@).len() == 0 ==> (r matches Err(e) && e matches WebhookError::BadRequest(m)
            && m@ == "url is required"@),
        trimmed(url@).len() > 0 && !spec_url_scheme_ok(trimmed(url@)) ==> (r matches Err(e)
            && e matches WebhookError::BadRequest(m) && m@
            == "url must start with http:// or https://"@),
        r is Ok <==> (trimmed(url@).len() > 0 && spec_url_scheme_ok(trimmed(url@))),
{
    validate_url(url)?;
    Ok(())
}

} // verus!
