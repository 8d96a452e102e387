use vstd::prelude::*;

verus! {

/// The library's error taxonomy.
///
/// `InvalidArgument` is client-induced (a 400 at the HTTP surface),
/// `EntityNotFound` a lookup miss (404), and `Persistence` a transient store
/// failure that the caller reports as a 500 or leaves unacknowledged so the
/// work queue redelivers.
#[derive(Debug)]
pub enum Error {
    InvalidArgument(String),
    EntityNotFound(String),
    Persistence(String),
}

/// Spec view of an error: the variant together with its message's characters.
pub open spec fn error_msg(e: Error) -> Seq<char> {
    match e {
        Error::InvalidArgument(m) => m@,
        Error::EntityNotFound(m) => m@,
        Error::Persistence(m) => m@,
    }
}

/// True when `e` is `InvalidArgument` carrying exactly the message `msg`.
pub open spec fn is_invalid_argument(e: Error, msg: Seq<char>) -> bool {
    e is InvalidArgument && error_msg(e) == msg
}

/// True when `e` is `EntityNotFound` carrying exactly the message `msg`.
pub open spec fn is_entity_not_found(e: Error, msg: Seq<char>) -> bool {
    e is EntityNotFound && error_msg(e) == msg
}

impl PartialEq for Error {
    fn eq(&self, other: &Self) -> (r: bool) {
        match (self, other) {
            (Error::InvalidArgument(a), Error::InvalidArgument(b)) => *a == *b,
            (Error::EntityNotFound(a), Error::EntityNotFound(b)) => *a == *b,
            (Error::Persistence(a), Error::Persistence(b)) => *a == *b,
            _ => false,
        }
    }
}

impl vstd::std_specs::cmp::PartialEqSpecImpl for Error {
    open spec fn obeys_eq_spec() -> bool {
        true
    }

    open spec fn eq_spec(&self, other: &Self) -> bool {
        match (self, other) {
            (Error::InvalidArgument(a), Error::InvalidArgument(b)) => a@ == b@,
            (Error::EntityNotFound(a), Error::EntityNotFound(b)) => a@ == b@,
            (Error::Persistence(a), Error::Persistence(b)) => a@ == b@,
            _ => false,
        }
    }
}

impl Clone for Error {
    fn clone(&self) -> (r: Self)
        ensures
            r is InvalidArgument == *self is InvalidArgument,
            r is EntityNotFound == *self is EntityNotFound,
            r is Persistence == *self is Persistence,
            error_msg(r) == error_msg(*self),
    {
        match self {
            Error::InvalidArgument(m) => Error::InvalidArgument(m.clone()),
            Error::EntityNotFound(m) => Error::EntityNotFound(m.clone()),
            Error::Persistence(m) => Error::Persistence(m.clone()),
        }
    }
}

} // verus!
