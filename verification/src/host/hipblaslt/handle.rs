//! The making of a library handle.
use vstd::prelude::*;
use vstd::string::*;

use crate::host::hipblaslt::error::LtError;

verus! {

/// What came of the attempt to make a handle.
pub enum HandleAttempt<H> {
    /// It was made.
    Made(H),
    /// The library refused, with this message.
    Refused(String),
    /// The library panicked; with the panic's message, where it is a text.
    Panicked(Option<String>),
}

impl<H> HandleAttempt<H> {
    /// Why there is no handle.
    pub open spec fn reason(self) -> Seq<char> {
        match self {
            HandleAttempt::Made(_) => Seq::empty(),
            HandleAttempt::Refused(message) => message@,
            HandleAttempt::Panicked(Some(message)) => message@,
            HandleAttempt::Panicked(None) => "rocBLASLt initialization panicked"@,
        }
    }
}

/// The handle, or why there is none. A panic of the library is a reason like
/// any other.
pub fn try_create_hipblaslt<H>(attempt: HandleAttempt<H>) -> (r: Result<H, String>)
    ensures
        match attempt {
            HandleAttempt::Made(handle) => r == Ok::<H, String>(handle),
            _ => r is Err && r->Err_0@ == attempt.reason(),
        },
{
    match attempt {
        HandleAttempt::Made(handle) => Ok(handle),
        HandleAttempt::Refused(message) => Err(message),
        HandleAttempt::Panicked(Some(message)) => Err(message),
        HandleAttempt::Panicked(None) => {
            let mut message = String::new();
            message.append("rocBLASLt initialization panicked");
            assert(message@ =~= "rocBLASLt initialization panicked"@);
            Err(message)
        },
    }
}

/// The handle for a matmul, or the failure of the matmul that has none.
pub fn get_hipblaslt<H>(attempt: HandleAttempt<H>) -> (r: Result<H, LtError>)
    ensures
        match attempt {
            HandleAttempt::Made(handle) => r == Ok::<H, LtError>(handle),
            _ => r matches Err(LtError::Unavailable(message)) && message@ == attempt.reason(),
        },
{
    match try_create_hipblaslt(attempt) {
        Ok(handle) => Ok(handle),
        Err(message) => Err(LtError::Unavailable(message)),
    }
}

/// A handle that was made is handed on; where none was, the matmul fails for the
/// reason that the library gave, by refusing or by panicking.
pub proof fn handles_are_handed_on<H>(
    attempt: HandleAttempt<H>,
    made: Result<H, String>,
    got: Result<H, LtError>,
)
    requires
        call_ensures(try_create_hipblaslt::<H>, (attempt,), made),
        call_ensures(get_hipblaslt::<H>, (attempt,), got),
    ensures
        attempt matches HandleAttempt::Made(handle) ==> made == Ok::<H, String>(handle) && got
            == Ok::<H, LtError>(handle),
        attempt matches HandleAttempt::Refused(message) ==> made is Err && made->Err_0@ == message@,
        attempt matches HandleAttempt::Panicked(Some(message)) ==> made is Err && made->Err_0@
            == message@,
        attempt matches HandleAttempt::Panicked(None) ==> made is Err && made->Err_0@
            == "rocBLASLt initialization panicked"@,
        made is Err ==> got is Err && got->Err_0 is Unavailable && got->Err_0->Unavailable_0@
            == made->Err_0@,
{
}

} // verus!
