//! Which exchanges the registry can connect.

use vstd::prelude::*;
use vstd::string::StringExecFns;
use crate::domain::error::FerrumError;
use crate::text::{chars_eq, str_chars};

verus! {

/// Whether the registry can build an adapter for the named exchange: only
/// `binance` is supported; any other name is an unknown exchange.
pub fn check_known_exchange(name: &str) -> (r: Result<(), FerrumError>)
    ensures
        name@ == "binance"@ ==> r is Ok,
        name@ != "binance"@ ==> (r matches Err(FerrumError::ExchangeError(m)) && m@
            == "Unknown exchange: "@ + name@),
{
    if chars_eq(&str_chars(name), &str_chars("binance")) {
        Ok(())
    } else {
        Err(FerrumError::ExchangeError(String::from_str("Unknown exchange: ").concat(name)))
    }
}

} // verus!
