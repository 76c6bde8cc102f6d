//! Completion signals.
//!
//! Whoever sends a message may want to learn when it has been applied. The
//! message therefore travels together with the sending half of a one-shot
//! channel; the receiving half stays with the sender of the message. The halves
//! are values of the `futures` crate and are opaque here: this crate creates
//! pairs, carries the sending halves through its state machines, and hands
//! each out when what it stands for has happened. Whoever is handed a
//! sending half fires it.

use futures::channel::oneshot;
use vstd::prelude::*;

verus! {

/// The sending half, `futures::channel::oneshot::Sender`. Opaque.
#[verifier::external_type_specification]
#[verifier::external_body]
#[verifier::reject_recursive_types(T)]
pub struct ExOneshotSender<T>(oneshot::Sender<T>);

/// The receiving half, `futures::channel::oneshot::Receiver`. Opaque.
#[verifier::external_type_specification]
#[verifier::external_body]
#[verifier::reject_recursive_types(T)]
pub struct ExOneshotReceiver<T>(oneshot::Receiver<T>);

/// What a receiving half resolves to when its sending half is dropped,
/// `futures::channel::oneshot::Canceled`. Nothing here handles a value of
/// it; the verifier asks for the declaration because the receiving half is
/// a future with this type in its output.
#[verifier::external_type_specification]
#[verifier::external_body]
pub struct ExOneshotCanceled(oneshot::Canceled);

/// Calls `futures::channel::oneshot::channel::<()>()`, which makes the two
/// halves of a fresh one-shot channel. Nothing is claimed of the halves.
#[verifier::external_body]
pub(crate) fn completion_pair() -> (pair: (oneshot::Sender<()>, oneshot::Receiver<()>)) {
    oneshot::channel::<()>()
}

} // verus!
