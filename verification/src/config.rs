//! Settings read from the process environment. The lookup itself is the
//! caller's; what is decided here is what a lookup's outcome means.

use vstd::prelude::*;
use vstd::string::StringExecFns;

verus! {

/// The message for a variable that is not set.
pub open spec fn not_found(name: Seq<char>) -> Seq<char> {
    name + " not found in environment"@
}

/// The message for a variable whose value does not parse.
pub open spec fn not_parsed(name: Seq<char>) -> Seq<char> {
    "Failed to parse "@ + name + " into T"@
}

/// The value of the variable `name`, where `found` is what looking it up
/// gave; or the message that it is not set.
pub fn get_env(name: &str, found: Option<String>) -> (r: Result<String, String>)
    ensures
        match found {
            Some(value) => r == Ok::<String, String>(value),
            None => r matches Err(message) && message@ == not_found(name@),
        },
{
    match found {
        Some(value) => Ok(value),
        None => {
            let mut message = String::from_str(name);
            message.append(" not found in environment");
            Err(message)
        },
    }
}

/// The parsed value of the variable `name`, where `found` is what looking it
/// up and parsing it gave: nothing where the variable is not set, and an
/// empty parse where its value is no `T`.
pub fn get_env_parse<T>(name: &str, found: Option<Option<T>>) -> (r: Result<T, String>)
    ensures
        match found {
            Some(Some(value)) => r == Ok::<T, String>(value),
            Some(None) => r matches Err(message) && message@ == not_parsed(name@),
            None => r matches Err(message) && message@ == not_found(name@),
        },
{
    match found {
        Some(Some(value)) => Ok(value),
        Some(None) => {
            let mut message = String::from_str("Failed to parse ");
            message.append(name);
            message.append(" into T");
            Err(message)
        },
        None => {
            let mut message = String::from_str(name);
            message.append(" not found in environment");
            Err(message)
        },
    }
}

} // verus!
