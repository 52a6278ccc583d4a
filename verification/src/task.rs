//! What the listener of a spawned task is told.
//!
//! A task runs to its end, fails, or panics. Whichever it is, its listener is told exactly one
//! thing, so that nobody waits for an answer that never comes.

use vstd::prelude::*;

use crate::text::prefixed;

verus! {

/// Why a task failed: an error that the bridge itself raises, or one of the engine's that it
/// passes on.
pub enum TaskError<E> {
    /// The bridge's own error, with its text.
    Execution(String),
    /// The engine's error.
    Engine(E),
}

/// What a panic carried.
#[derive(Debug)]
pub enum PanicPayload {
    /// A string slice.
    Slice(String),
    /// An owned string.
    Owned(String),
    /// Something without a text.
    Opaque,
}

/// How a task ended.
pub enum TaskEnd<T, E> {
    /// It returned.
    Returned(Result<T, TaskError<E>>),
    /// It panicked.
    Panicked(PanicPayload),
}

/// The text of a panic.
pub open spec fn panic_text(payload: PanicPayload) -> Seq<char> {
    match payload {
        PanicPayload::Slice(text) => text@,
        PanicPayload::Owned(text) => text@,
        PanicPayload::Opaque => "unknown panic payload"@,
    }
}

/// The text of the error that stands for a panic of the task `task_name`.
pub open spec fn panicked_text(task_name: Seq<char>, payload: PanicPayload) -> Seq<char> {
    task_name + " panicked: "@ + panic_text(payload)
}

/// The text of a panic.
pub fn panic_message(payload: &PanicPayload) -> (r: String)
    ensures
        r@ == panic_text(*payload),
{
    match payload {
        PanicPayload::Slice(text) => text.clone(),
        PanicPayload::Owned(text) => text.clone(),
        PanicPayload::Opaque => "unknown panic payload".to_owned(),
    }
}

/// The text of the error that stands for a panic of the task `task_name`.
pub fn panicked_message(task_name: &str, payload: &PanicPayload) -> (r: String)
    ensures
        r@ == panicked_text(task_name@, *payload),
{
    let message = panic_message(payload);
    prefixed(task_name, " panicked: ").concat(message.as_str())
}

/// The one thing that the listener of a task is told: its value, its error, or an error that
/// stands for its panic.
pub fn notification<T, E>(task_name: &str, end: TaskEnd<T, E>) -> (r: Result<T, TaskError<E>>)
    ensures
        match end {
            TaskEnd::Returned(result) => r == result,
            TaskEnd::Panicked(payload) => r matches Err(TaskError::Execution(text)) && text@
                == panicked_text(task_name@, payload),
        },
{
    match end {
        TaskEnd::Returned(result) => result,
        TaskEnd::Panicked(payload) => Err(
            TaskError::Execution(panicked_message(task_name, &payload)),
        ),
    }
}

/// The result of work that was handed to another thread: a worker that went away without an answer
/// counts as an error.
pub fn received<T, E>(answer: Option<Result<T, E>>) -> (r: Result<T, TaskError<E>>)
    ensures
        match answer {
            Some(Ok(value)) => r == Ok::<T, TaskError<E>>(value),
            Some(Err(e)) => r == Err::<T, TaskError<E>>(TaskError::Engine(e)),
            None => r matches Err(TaskError::Execution(text)) && text@ == "Channel closed"@,
        },
{
    match answer {
        Some(Ok(value)) => Ok(value),
        Some(Err(e)) => Err(TaskError::Engine(e)),
        None => Err(TaskError::Execution("Channel closed".to_owned())),
    }
}

} // verus!
