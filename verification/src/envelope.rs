//! The uniform result envelope of every exposed operation.

use vstd::prelude::*;
use vstd::std_specs::convert::FromSpecImpl;

verus! {

/// What an operation hands to the frontend: either a value or an error text.
pub struct CommandResult<T> {
    pub success: bool,
    pub value: Option<T>,
    pub error: Option<String>,
}

impl<T> CommandResult<T> {
    /// Exactly one of `value` and `error` is present, as `success` says.
    pub open spec fn well_formed(self) -> bool {
        &&& self.success <==> self.value is Some
        &&& self.success <==> self.error is None
    }

    /// The envelope of a value.
    pub open spec fn spec_ok(v: T) -> Self {
        CommandResult { success: true, value: Some(v), error: None }
    }

    /// The envelope of an error text.
    pub open spec fn spec_err(msg: String) -> Self {
        CommandResult { success: false, value: None, error: Some(msg) }
    }

    #[inline]
    pub fn ok(v: T) -> (r: Self)
        ensures
            r == Self::spec_ok(v),
            r.well_formed(),
    {
        CommandResult { success: true, value: Some(v), error: None }
    }

    #[inline]
    pub fn err(msg: String) -> (r: Self)
        ensures
            r == Self::spec_err(msg),
            r.well_formed(),
    {
        CommandResult { success: false, value: None, error: Some(msg) }
    }
}

impl<T> From<Result<T, String>> for CommandResult<T> {
    fn from(r: Result<T, String>) -> (out: Self) {
        match r {
            Ok(v) => CommandResult::ok(v),
            Err(e) => CommandResult::err(e),
        }
    }
}

impl<T> FromSpecImpl<Result<T, String>> for CommandResult<T> {
    open spec fn obeys_from_spec() -> bool {
        true
    }

    open spec fn from_spec(r: Result<T, String>) -> Self {
        envelope_of(r)
    }
}

/// The envelope of an operation's outcome.
pub open spec fn envelope_of<T>(r: Result<T, String>) -> CommandResult<T> {
    match r {
        Ok(v) => CommandResult::spec_ok(v),
        Err(e) => CommandResult::spec_err(e),
    }
}

/// The text that stands before the detail when the background task itself
/// did not complete.
pub open spec fn join_failure_prefix() -> Seq<char> {
    "Tokio join error: "@
}

/// The envelope of a background task: `joined` is `Err` with the pool's
/// own words where the task did not run to its end, else what the task gave.
pub fn settle<T>(joined: Result<Result<T, String>, String>) -> (r: CommandResult<T>)
    ensures
        r.well_formed(),
        match joined {
            Ok(res) => r == envelope_of(res),
            Err(detail) => !r.success && r.value is None && r.error is Some
                && r.error.unwrap()@ == join_failure_prefix() + detail@,
        },
{
    match joined {
        Ok(res) => CommandResult::from(res),
        Err(detail) => {
            let mut msg = String::from_str("Tokio join error: ");
            msg.append(detail.as_str());
            CommandResult::err(msg)
        },
    }
}

/// Every outcome of an operation becomes an envelope of exactly one of the
/// two shapes: a success with its value and no error, or a failure with its
/// error text and no value.
pub proof fn lemma_envelope_has_one_shape<T>(r: Result<T, String>)
    ensures
        envelope_of(r).well_formed(),
        envelope_of(r).success <==> r is Ok,
        r is Ok ==> envelope_of(r).value == Some(r->Ok_0),
        r is Err ==> envelope_of(r).error == Some(r->Err_0),
{
}

} // verus!
