use vstd::prelude::*;

use crate::driver::{chosen_index, has_driver_for, AnyDriver, DriverRegistry};
use crate::error::AnyError;
use crate::options::AnyConnectOptions;

verus! {

/// The synchronous half of connection establishment: select, from the
/// installed drivers, the one that will perform the handshake for the
/// options' target URL. On success the caller (the embedding code) invokes
/// the returned driver's connect entry point with these same options and
/// awaits it, propagating its outcome verbatim — no retry, no fallback.
///
/// When no installed driver claims the URL's scheme, the result is the
/// configuration error naming that exact scheme, and no driver is handed
/// out: a connect entry point can only be reached through the `Ok` arm, so
/// no backend handshake is ever attempted for an unregistered scheme.
pub fn establish_driver<'a, C, M>(
    registry: &'a DriverRegistry<C, M>,
    options: &AnyConnectOptions,
) -> (r: Result<&'a AnyDriver<C, M>, AnyError>)
    requires
        registry.is_installed(),
    ensures
        match r {
            Ok(d) => has_driver_for(registry.drivers_seq(), options.database_url@.scheme) && *d
                == registry.drivers_seq()[chosen_index(
                registry.drivers_seq(),
                options.database_url@.scheme,
            )],
            Err(e) => !has_driver_for(registry.drivers_seq(), options.database_url@.scheme)
                && e.scheme() == options.database_url@.scheme,
        },
{
    crate::driver::choose_driver(registry, &options.database_url)
}

} // verus!
