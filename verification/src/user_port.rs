//! The rule for a port that a service may listen on without privileges.

use crate::text::{decimal, decimal_digits};
use vstd::prelude::*;
use vstd::string::StringExecFns;

verus! {

/// The lowest port that needs no privileges: those below it are reserved.
pub const MIN_USER_PORT: u16 = 1024;

/// Why a port is refused. `name` says which port it is, as in "metrics".
#[derive(Debug)]
pub enum PortError {
    /// The port is zero.
    Zero { name: String },
    /// The port is below `MIN_USER_PORT`.
    Privileged { name: String, port: u16 },
}

/// What a `PortError` holds.
pub enum PortFault {
    Zero { name: Seq<char> },
    Privileged { name: Seq<char>, port: u16 },
}

impl View for PortError {
    type V = PortFault;

    open spec fn view(&self) -> PortFault {
        match *self {
            PortError::Zero { name } => PortFault::Zero { name: name@ },
            PortError::Privileged { name, port } => PortFault::Privileged { name: name@, port },
        }
    }
}

impl PortFault {
    /// The text of the fault, as a user reads it.
    pub open spec fn text(self) -> Seq<char> {
        match self {
            PortFault::Zero { name } => "Invalid "@ + name + " port: port cannot be 0"@,
            PortFault::Privileged { name, port } => "Invalid "@ + name + " port: "@
                + decimal_digits(port as nat) + " is a privileged port (< "@ + decimal_digits(
                MIN_USER_PORT as nat,
            ) + "). Use a port >= "@ + decimal_digits(MIN_USER_PORT as nat),
        }
    }
}

/// What is wrong with `port`, if anything: zero is no port, and a port
/// below `MIN_USER_PORT` is privileged.
pub open spec fn port_fault(port: u16, name: Seq<char>) -> Option<PortFault> {
    if port == 0 {
        Some(PortFault::Zero { name })
    } else if port < MIN_USER_PORT {
        Some(PortFault::Privileged { name, port })
    } else {
        None
    }
}

impl PortError {
    /// The text of the error, as a user reads it.
    pub fn message(&self) -> (message: String)
        ensures
            message@ == self@.text(),
    {
        match self {
            PortError::Zero { name } => String::from_str("Invalid ").concat(name.as_str()).concat(
                " port: port cannot be 0",
            ),
            PortError::Privileged { name, port } => {
                let number: String = decimal(*port as u64);
                let limit: String = decimal(MIN_USER_PORT as u64);
                String::from_str("Invalid ").concat(name.as_str()).concat(" port: ").concat(
                    number.as_str(),
                ).concat(" is a privileged port (< ").concat(limit.as_str()).concat(
                    "). Use a port >= ",
                ).concat(limit.as_str())
            },
        }
    }
}

/// Accepts a port from `MIN_USER_PORT` up; refuses zero and the privileged
/// ports, each with its own error, which carries `name`.
pub fn validate_user_port(port: u16, name: &str) -> (result: Result<(), PortError>)
    ensures
        match result {
            Ok(_) => port_fault(port, name@) is None,
            Err(error) => port_fault(port, name@) == Some(error@),
        },
{
    if port == 0 {
        return Err(PortError::Zero { name: name.to_owned() });
    }
    if port < MIN_USER_PORT {
        return Err(PortError::Privileged { name: name.to_owned(), port });
    }
    Ok(())
}

} // verus!
