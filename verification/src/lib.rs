//! Command handlers for a desktop shell's file operations.
//!
//! The host dispatcher hands each command its arguments and carries a result
//! or an error string back to the caller. Reading and writing the file itself
//! is an operating-system call made at the process boundary; each command
//! here turns the raw outcome of that call into the reply owed to the caller:
//! the file's text unchanged on a successful read, a labelled error message
//! on a failed one. The two dialog commands are stubs kept for compatibility:
//! they always fail with a fixed message directing the caller to the
//! dialog capability provided on the front-end side.

use vstd::prelude::*;

verus! {

/// The reply text for a read that the operating system refused:
/// a fixed label followed by the OS error text, verbatim.
pub open spec fn read_failure_message(os_error: Seq<char>) -> Seq<char> {
    "Failed to read file: "@ + os_error
}

/// Turns the outcome of the operating system's read of the requested file
/// (its full text, or the OS error text) into the read command's reply:
/// the text exactly as read on success, a labelled error message on failure.
pub fn complete_read_file(outcome: Result<String, String>) -> (reply: Result<String, String>)
    ensures
        reply is Ok <==> outcome is Ok,
        outcome is Ok ==> reply == outcome,
        outcome matches Err(os_error) ==> reply matches Err(message)
            && message@ == read_failure_message(os_error@),
{
    match outcome {
        Ok(content) => Ok(content),
        Err(os_error) => Err(
            String::from_str("Failed to read file: ").concat(os_error.as_str()),
        ),
    }
}

/// The reply text for a write that the operating system refused:
/// a fixed label followed by the OS error text, verbatim.
pub open spec fn write_failure_message(os_error: Seq<char>) -> Seq<char> {
    "Failed to write file: "@ + os_error
}

/// Turns the outcome of the operating system's write of the given text
/// (success, or the OS error text) into the write command's reply:
/// success untouched, a labelled error message on failure.
pub fn complete_write_file(outcome: Result<(), String>) -> (reply: Result<(), String>)
    ensures
        reply is Ok <==> outcome is Ok,
        outcome matches Err(os_error) ==> reply matches Err(message)
            && message@ == write_failure_message(os_error@),
{
    match outcome {
        Ok(()) => Ok(()),
        Err(os_error) => Err(
            String::from_str("Failed to write file: ").concat(os_error.as_str()),
        ),
    }
}

/// The fixed reply text of both dialog stubs.
pub open spec fn dialog_unsupported_message() -> Seq<char> {
    "Use dialog plugin from frontend"@
}

/// The open-dialog command is a stub kept for compatibility: the actual
/// dialog is provided on the front-end side, so this command always fails
/// with the same fixed message, whatever the environment.
pub fn open_file_dialog() -> (reply: Result<Option<String>, String>)
    ensures
        reply matches Err(message) && message@ == dialog_unsupported_message(),
{
    Err(String::from_str("Use dialog plugin from frontend"))
}

/// The save-dialog command is the same stub as the open-dialog one:
/// it always fails with the same fixed message, whatever the environment.
pub fn save_file_dialog() -> (reply: Result<Option<String>, String>)
    ensures
        reply matches Err(message) && message@ == dialog_unsupported_message(),
{
    Err(String::from_str("Use dialog plugin from frontend"))
}

/// A failed read's reply starts with the read-failure label and carries the
/// operating system's error text verbatim after it, whatever that text is.
pub proof fn lemma_read_failure_message_labelled(os_error: Seq<char>)
    ensures
        read_failure_message(os_error).len()
            == "Failed to read file: "@.len() + os_error.len(),
        read_failure_message(os_error).take("Failed to read file: "@.len() as int)
            == "Failed to read file: "@,
        read_failure_message(os_error).skip("Failed to read file: "@.len() as int)
            == os_error,
{
    let label = "Failed to read file: "@;
    assert(read_failure_message(os_error).take(label.len() as int) =~= label);
    assert(read_failure_message(os_error).skip(label.len() as int) =~= os_error);
}

/// A failed write's reply starts with the write-failure label and carries the
/// operating system's error text verbatim after it, whatever that text is.
pub proof fn lemma_write_failure_message_labelled(os_error: Seq<char>)
    ensures
        write_failure_message(os_error).len()
            == "Failed to write file: "@.len() + os_error.len(),
        write_failure_message(os_error).take("Failed to write file: "@.len() as int)
            == "Failed to write file: "@,
        write_failure_message(os_error).skip("Failed to write file: "@.len() as int)
            == os_error,
{
    let label = "Failed to write file: "@;
    assert(write_failure_message(os_error).take(label.len() as int) =~= label);
    assert(write_failure_message(os_error).skip(label.len() as int) =~= os_error);
}

} // verus!
