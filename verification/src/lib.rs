//! A minimal on-chain program: one `initialize` entry point that appends a
//! single line to the invocation log and returns success, together with the
//! fixed identifier under which the program is deployed.

use vstd::prelude::*;
use vstd::string::StringExecFns;

verus! {

/// The base58 form of the fixed identifier under which the program is
/// deployed.
pub open spec fn program_id_view() -> Seq<char> {
    "2C6AZkp4iZWEJQtGQkVu8Ht6MdhysqKi8js3ekGHFbPU"@
}

/// The fixed program identifier, in base58.
pub fn program_id() -> (r: &'static str)
    ensures
        r@ == program_id_view(),
{
    "2C6AZkp4iZWEJQtGQkVu8Ht6MdhysqKi8js3ekGHFbPU"
}

/// An entry point's error. `initialize` never fails, so it never returns
/// a value of this type.
pub struct ProgramError {}

/// The accounts context of `initialize`: the invocation may touch no
/// account, so the context declares none.
pub struct Initialize {}

/// The line that `initialize` writes to the log.
pub open spec fn hello_line() -> Seq<char> {
    "Hello, World!"@
}

/// The entry point. For any invocation with the empty accounts context it
/// appends exactly one line, `hello_line()`, to the log, leaves every line
/// already in the log unchanged, and returns success.
pub fn initialize(_accounts: &Initialize, log: &mut Vec<String>) -> (r: Result<(), ProgramError>)
    ensures
        r is Ok,
        final(log)@.len() == old(log)@.len() + 1,
        forall|i: int| 0 <= i < old(log)@.len() ==> final(log)@[i] == old(log)@[i],
        (final(log)@[old(log)@.len() as int])@ == hello_line(),
{
    log.push(String::from_str("Hello, World!"));
    Ok(())
}

/// The view of the line that greets by a program identifier: the fixed
/// prefix followed by the identifier itself.
pub open spec fn greeting_line_view(id: Seq<char>) -> Seq<char> {
    "Greetings from: "@ + id
}

/// The log line that greets by a program identifier.
pub fn greeting_line(id: &str) -> (r: String)
    ensures
        r@ == greeting_line_view(id@),
{
    let mut line = String::from_str("Greetings from: ");
    line.append(id);
    line
}

} // verus!
