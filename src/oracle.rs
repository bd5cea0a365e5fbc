use vstd::prelude::*;
use vstd::string::StringExecFns;

use crate::error::RunError;

verus! {

/// Whether the service is among the permitted ones.
pub open spec fn permits(services: Seq<String>, service: Seq<char>) -> bool {
    exists|i: int| 0 <= i < services.len() && #[trigger] services[i]@ == service
}

/// Decides an oracle call the running program makes: a service the lock
/// manifest does not declare is refused as unauthorized; a declared one with
/// no endpoint configured is refused too; otherwise the call goes to the
/// endpoint, which is returned.
pub fn authorize_oracle_call(
    services: &Vec<String>,
    endpoint: &Option<String>,
    service: &str,
) -> (r: Result<String, RunError>)
    ensures
        r is Ok <==> (endpoint is Some && permits(services@, service@)),
        r matches Ok(url) ==> endpoint == Some(url),
        !permits(services@, service@) ==> (r matches Err(RunError::UnauthorizedOracleCall {
            service: s,
        }) && s@ == service@),
        permits(services@, service@) && endpoint is None ==> (r matches Err(
            RunError::NoOracleEndpoint { service: s },
        ) && s@ == service@),
{
    let wanted = String::from_str(service);
    let mut i: usize = 0;
    let mut found = false;
    while i < services.len()
        invariant
            i <= services.len(),
            wanted@ == service@,
            found <==> exists|j: int| 0 <= j < i && #[trigger] services@[j]@ == service@,
        decreases services.len() - i,
    {
        if services[i] == wanted {
            found = true;
        }
        i += 1;
    }
    if !found {
        return Err(RunError::UnauthorizedOracleCall { service: wanted });
    }
    match endpoint {
        Some(url) => Ok(url.clone()),
        None => Err(RunError::NoOracleEndpoint { service: wanted }),
    }
}

} // verus!
