//! Registration endpoint for customer accounts.

use vstd::prelude::*;

use super::service::{AuthServiceError, RegisterResponse, VerificationEmail};
use super::service_impl::{register_spec, AuthServiceImpl};

verus! {

/// Request body for the registration endpoint.
pub struct RegisterRequest {
    pub email: String,
    pub password: String,
}

/// The role that self-registered accounts get.
pub open spec fn customer_role() -> Seq<char> {
    "customer"@
}

/// Registers a customer account from the request body.
pub fn register_customer(service: &mut AuthServiceImpl, body: &RegisterRequest) -> (res: Result<
    (RegisterResponse, VerificationEmail),
    AuthServiceError,
>)
    requires
        old(service).wf(),
    ensures
        final(service).wf(),
        final(service).config == old(service).config,
        exists|now: i64|
            register_spec(
                old(service).db,
                final(service).db,
                old(service).config,
                body.email@,
                body.password@,
                customer_role(),
                now,
                res,
            ),
{
    let res = service.register(body.email.as_str(), body.password.as_str(), "customer");
    proof {
        let now = choose|now: i64|
            register_spec(
                old(service).db,
                service.db,
                old(service).config,
                body.email@,
                body.password@,
                "customer"@,
                now,
                res,
            );
        assert(register_spec(
            old(service).db,
            service.db,
            old(service).config,
            body.email@,
            body.password@,
            customer_role(),
            now,
            res,
        ));
    }
    res
}

} // verus!
