use vstd::prelude::*;

verus! {

#[verifier::external_type_specification]
#[verifier::external_body]
#[verifier::reject_recursive_types(T)]
pub struct ExSender<T>(crossbeam_channel::Sender<T>);

#[verifier::external_type_specification]
#[verifier::external_body]
#[verifier::reject_recursive_types(T)]
pub struct ExReceiver<T>(crossbeam_channel::Receiver<T>);

/// Relies on `crossbeam_channel::unbounded`: a fresh channel with no bound
/// on what it holds.
#[verifier::external_body]
pub(crate) fn unbounded_channel<T>() -> (r: (crossbeam_channel::Sender<T>, crossbeam_channel::Receiver<T>)) {
    crossbeam_channel::unbounded()
}

/// Relies on `crossbeam_channel::bounded` with a capacity of one: a fresh
/// channel for a single answer.
#[verifier::external_body]
pub(crate) fn answer_channel<T>() -> (r: (crossbeam_channel::Sender<T>, crossbeam_channel::Receiver<T>)) {
    crossbeam_channel::bounded(1)
}

/// Relies on `crossbeam_channel::Sender::send`: whether the value was taken
/// depends on whether a receiver is still there, so nothing is promised.
#[verifier::external_body]
pub(crate) fn post<T>(tx: &crossbeam_channel::Sender<T>, value: T) -> (r: bool) {
    tx.send(value).is_ok()
}

/// Relies on `crossbeam_channel::Receiver::recv`: waits for a value, and
/// gives `None` once every sender is gone; which value comes is up to the
/// sending side.
#[verifier::external_body]
pub(crate) fn wait_for<T>(rx: &crossbeam_channel::Receiver<T>) -> (r: Option<T>) {
    rx.recv().ok()
}

} // verus!
