//! Host side of a scene-based interactive narrative: the state that a story
//! script drives, kept apart from the page that shows it and from the
//! scripting engine that runs it.

use vstd::prelude::*;
use vstd::string::*;

pub mod engine;
pub mod util;
pub mod wasm;

verus! {

/// What `start` fails with when the session info is no object.
pub const INFO_NOT_AN_OBJECT: &'static str = "Failure, info was not an object.";

/// The text of a failure inside a script function that the host called
/// on behalf of `operation`. It names the operation and carries the text
/// of the script's own error.
pub open spec fn vm_error_text(operation: Seq<char>, error: Seq<char>) -> Seq<char> {
    "[VMError:"@ + operation + "]: "@ + error
}

/// The text of a failure of the script's entry point.
pub open spec fn entry_error_text(error: Seq<char>) -> Seq<char> {
    "[VMError::entry]: "@ + error
}

/// The text of the failure of `operation` to get at `resource`, a part of
/// the narrative state that is shared and was in use. It names the
/// operation.
pub open spec fn borrow_error_text(operation: Seq<char>, resource: Seq<char>) -> Seq<char> {
    "[BorrowError:"@ + operation + "]: Expected "@ + resource + " to be available"@
}

/// Renders the failure `error` of a script function that the host called
/// on behalf of `operation`.
pub fn vm_error_message(operation: &str, error: &str) -> (text: String)
    ensures
        text@ == vm_error_text(operation@, error@),
{
    let mut text = String::from_str("[VMError:");
    text.append(operation);
    text.append("]: ");
    text.append(error);
    text
}

/// Renders the failure `error` of the script's entry point.
pub fn entry_error_message(error: &str) -> (text: String)
    ensures
        text@ == entry_error_text(error@),
{
    let mut text = String::from_str("[VMError::entry]: ");
    text.append(error);
    text
}

/// Renders the failure of `operation` to get at `resource`, which is
/// shared and was in use.
pub fn borrow_error_message(operation: &str, resource: &str) -> (text: String)
    ensures
        text@ == borrow_error_text(operation@, resource@),
{
    let mut text = String::from_str("[BorrowError:");
    text.append(operation);
    text.append("]: Expected ");
    text.append(resource);
    text.append(" to be available");
    text
}

/// The value that a script function returned. The call must have
/// succeeded: a failure inside the script is fatal to whoever asked, and
/// `check_vm_result` renders it.
pub fn handle_vm_result<V>(v: Result<V, String>) -> (value: V)
    requires
        v is Ok,
    ensures
        value == v->Ok_0,
{
    v.unwrap()
}

/// The value that a script function returned to `operation`, or its
/// failure as the text to fail with.
pub fn check_vm_result<V>(operation: &str, v: Result<V, String>) -> (checked: Result<V, String>)
    ensures
        v is Ok ==> checked == v,
        v is Err ==> checked is Err && checked->Err_0@ == vm_error_text(
            operation@,
            v->Err_0@,
        ),
{
    match v {
        Ok(value) => Ok(value),
        Err(error) => Err(vm_error_message(operation, error.as_str())),
    }
}

/// Whether `c` is white space: the characters that Unicode gives the
/// property `White_Space`.
pub open spec fn is_white_space(c: char) -> bool {
    let code = c as u32;
    ||| 0x09 <= code <= 0x0d
    ||| code == 0x20
    ||| code == 0x85
    ||| code == 0xa0
    ||| code == 0x1680
    ||| 0x2000 <= code <= 0x200a
    ||| code == 0x2028
    ||| code == 0x2029
    ||| code == 0x202f
    ||| code == 0x205f
    ||| code == 0x3000
}

/// `text` without the white space at its end.
pub open spec fn trimmed_end(text: Seq<char>) -> Seq<char>
    decreases text.len(),
{
    if text.len() > 0 && is_white_space(text.last()) {
        trimmed_end(text.drop_last())
    } else {
        text
    }
}

/// Whether `c` is white space.
pub fn white_space(c: char) -> (white: bool)
    ensures
        white == is_white_space(c),
{
    let code: u32 = c as u32;
    (0x09 <= code && code <= 0x0d) || code == 0x20 || code == 0x85 || code == 0xa0 || code
        == 0x1680 || (0x2000 <= code && code <= 0x200a) || code == 0x2028 || code == 0x2029 || code
        == 0x202f || code == 0x205f || code == 0x3000
}

/// Cuts the white space off the end of `text`.
pub fn trim_end(text: &str) -> (trimmed: String)
    ensures
        trimmed@ == trimmed_end(text@),
{
    let mut n: usize = text.unicode_len();
    assert(text@.take(n as int) =~= text@);
    while n > 0 && white_space(text.get_char(n - 1))
        invariant
            0 <= n <= text@.len(),
            trimmed_end(text@) == trimmed_end(text@.take(n as int)),
        decreases n,
    {
        proof {
            assert(text@.take(n as int).drop_last() =~= text@.take(n - 1));
        }
        n = n - 1;
    }
    assert(text@.subrange(0, n as int) =~= text@.take(n as int));
    String::from_str(text.substring_char(0, n))
}

/// What became of compiling the sources of a session: the failure to set
/// up what scripts may call, if that failed; the diagnostics that the
/// compiler emitted for its errors and for its warnings, each absent if
/// there were none; and the machine that runs the compiled script, or why
/// there is none.
pub struct Compilation<V> {
    /// Why the functions offered to scripts could not be set up, if they
    /// could not.
    pub context_error: Option<String>,
    /// The diagnostics emitted for the errors, if there were errors.
    pub errors: Option<String>,
    /// The diagnostics emitted for the warnings, if there were warnings.
    pub warnings: Option<String>,
    /// The machine, or what the loader said when it made none.
    pub vm: Result<V, String>,
}

/// The verdict on a compilation.
pub open spec fn compilation_verdict<V>(compiled: Compilation<V>, made: Result<V, String>) -> bool {
    if compiled.context_error is Some {
        made is Err && made->Err_0@ == compiled.context_error->0@
    } else if compiled.errors is Some {
        made is Err && made->Err_0@ == trimmed_end(compiled.errors->0@)
    } else if compiled.warnings is Some {
        made is Err && made->Err_0@ == trimmed_end(compiled.warnings->0@)
    } else if compiled.vm is Err {
        made is Err && made->Err_0@ == compiled.vm->Err_0@
    } else {
        made is Ok && made->Ok_0 == compiled.vm->Ok_0
    }
}

/// Decides whether a session may run its script. A failed set-up forbids
/// it and is reported as it is. Errors forbid it, and so do warnings: the
/// session then fails with the diagnostics, errors before warnings, cut off
/// where their trailing white space begins. A compilation without any
/// diagnostics yields the machine, or fails with what the loader said if it
/// made none.
pub fn create_rune<V>(compiled: Compilation<V>) -> (made: Result<V, String>)
    ensures
        compilation_verdict(compiled, made),
{
    match compiled.context_error {
        Some(error) => Err(error),
        None => match compiled.errors {
            Some(diagnostics) => Err(trim_end(diagnostics.as_str())),
            None => match compiled.warnings {
                Some(diagnostics) => Err(trim_end(diagnostics.as_str())),
                None => compiled.vm,
            },
        },
    }
}

} // verus!
