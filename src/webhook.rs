use vstd::prelude::*;
use crate::auth::{authenticate, hmac_sha256_of, opt_str_view, signature_verdict};
use crate::error::PipelineError;
use crate::text::str_eq;

verus! {

/// The event type of the control event that checks a webhook's reachability.
pub const PING_EVENT: &'static str = "ping";

/// What to do with an accepted delivery.
#[derive(PartialEq, Eq, Structural, Clone, Copy, Debug)]
pub enum Delivery {
    /// A reachability check: answer it with success and do nothing else.
    Ping,
    /// An authenticated event: read its payload and run the pipeline.
    Event,
}

/// Admits a webhook delivery. The event-type header is looked at first: a
/// ping is answered with success before the signature or the body is looked
/// at, whatever they hold. Every other delivery must carry a valid signature
/// of its body under the shared secret.
pub fn accept_delivery(
    event_type: Option<&str>,
    signature: Option<&str>,
    body: &[u8],
    secret: &[u8],
) -> (r: Result<Delivery, PipelineError>)
    ensures
        match event_type {
            None => r == Err::<Delivery, PipelineError>(PipelineError::EventHeaderMissing),
            Some(t) => if t@ == PING_EVENT@ {
                r == Ok::<Delivery, PipelineError>(Delivery::Ping)
            } else {
                match signature_verdict(opt_str_view(signature), hmac_sha256_of(secret@, body@)) {
                    Ok(_) => r == Ok::<Delivery, PipelineError>(Delivery::Event),
                    Err(e) => r == Err::<Delivery, PipelineError>(e),
                }
            },
        },
{
    match event_type {
        None => Err(PipelineError::EventHeaderMissing),
        Some(t) => {
            if str_eq(t, PING_EVENT) {
                return Ok(Delivery::Ping);
            }
            match authenticate(body, signature, secret) {
                Ok(()) => Ok(Delivery::Event),
                Err(e) => Err(e),
            }
        },
    }
}

} // verus!
