//! A minimal contract with two entry points: an initializer that creates an
//! empty state, and a read-only `say_hello` operation that answers with a fixed
//! greeting.
//!
//! The host's invocation objects (init and receive contexts, the state builder,
//! the host accessor) are not read by either operation, so the operations here
//! take none of them; the results carry the host's rejection type, so that they
//! have the shape the host expects of an entry point.
use vstd::prelude::*;

verus! {

/// Rejection of an invocation, as the contract host defines it: an error code
/// in the range `i32::MIN..=-1` and an optional return value.
#[verifier::external_type_specification]
#[verifier::external_body]
pub struct ExReject(concordium_std::Reject);

/// The greeting that `say_hello` answers with.
pub open spec fn greeting() -> Seq<char> {
    "Hello, World!"@
}

/// The outcome of a greeting call: success, carrying the greeting text exactly.
pub open spec fn greets(r: Result<String, concordium_std::Reject>) -> bool {
    r matches Ok(s) && s@ == greeting()
}

/// The outcome of the initializer: success, carrying the empty state.
pub open spec fn creates_empty_state(r: Result<(), concordium_std::Reject>) -> bool {
    r matches Ok(s) && s == ()
}

/// Initializer of the contract, run once at deployment. It creates the empty
/// state and never rejects.
pub fn init() -> (r: Result<(), concordium_std::Reject>)
    ensures
        creates_empty_state(r),
{
    Ok(())
}

/// The `say_hello` operation. It reads nothing and changes nothing, and
/// always answers with the text `Hello, World!`.
pub fn say_hello() -> (r: Result<String, concordium_std::Reject>)
    ensures
        greets(r),
{
    let s = "Hello, World!".to_string();
    proof {
        reveal_strlit("Hello, World!");
    }
    Ok(s)
}

/// Any two answers of `say_hello`, whatever the calls around them, carry the
/// same text: the greeting never varies from one call to the next.
pub proof fn say_hello_is_constant(
    a: Result<String, concordium_std::Reject>,
    b: Result<String, concordium_std::Reject>,
)
    requires
        greets(a),
        greets(b),
    ensures
        a matches Ok(x) && b matches Ok(y) && x@ == y@,
{
}

} // verus!
