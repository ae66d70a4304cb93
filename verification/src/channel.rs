use vstd::prelude::*;

verus! {

#[verifier::external_type_specification]
#[verifier::external_body]
#[verifier::reject_recursive_types(T)]
pub struct ExSender<T>(std::sync::mpsc::Sender<T>);

#[verifier::external_type_specification]
#[verifier::external_body]
#[verifier::reject_recursive_types(T)]
pub struct ExReceiver<T>(std::sync::mpsc::Receiver<T>);

/// Relies on `std::sync::mpsc::channel`: an unbounded multi-producer,
/// single-consumer queue connecting the workers to the caller.
#[verifier::external_body]
pub(crate) fn byte_channel() -> (std::sync::mpsc::Sender<Vec<u8>>, std::sync::mpsc::Receiver<Vec<u8>>) {
    std::sync::mpsc::channel()
}

/// Relies on `std::sync::mpsc::Sender::send`: queues the value unless the
/// receiving end has been dropped. A failure is the cooperative stop
/// signal of a consumer that left early, not an error.
#[verifier::external_body]
pub(crate) fn send_path(tx: &std::sync::mpsc::Sender<Vec<u8>>, path: Vec<u8>) -> (ok: bool) {
    tx.send(path).is_ok()
}

/// Relies on `std::sync::mpsc::Receiver::recv`: yields the next queued
/// value, blocking while producers are live, and nothing once every
/// sender is gone and the queue is drained.
#[verifier::external_body]
pub(crate) fn recv_path(rx: &std::sync::mpsc::Receiver<Vec<u8>>) -> (r: Option<Vec<u8>>) {
    rx.recv().ok()
}

} // verus!
