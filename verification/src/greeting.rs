//! The greetings that the service answers with.

use crate::app_error::AppResult;
use vstd::prelude::*;

verus! {

/// Greets `name`.
pub fn greet(name: String) -> (r: String)
    ensures
        r@ == "Hello, "@ + name@ + "!"@,
{
    let mut text = String::from_str("Hello, ");
    text.append(name.as_str());
    text.append("!");
    text
}

/// The greeting of the service to whoever calls it. It never fails.
pub fn hello_world() -> (r: AppResult<String>)
    ensures
        r matches Ok(text) && text@ == "Hello, world!"@,
{
    Ok(String::from_str("Hello, world!"))
}

} // verus!
