//! The parts of `std::sync` that carry messages between a pass and its
//! controller, made known to the verifier.
//!
//! Nothing is promised of what a channel or a lock hands back: the other
//! side of it runs on its own schedule.

use std::sync::mpsc::{Receiver, RecvError, SendError, Sender, TryRecvError};
use std::sync::{Arc, Mutex, MutexGuard, PoisonError};
use vstd::prelude::*;

verus! {

/// `std::sync::mpsc::Sender`: a sending end of a channel. Opaque.
#[verifier::external_type_specification]
#[verifier::external_body]
#[verifier::reject_recursive_types(T)]
pub struct ExSender<T>(Sender<T>);

/// `std::sync::mpsc::Receiver`: the receiving end of a channel. Opaque.
#[verifier::external_type_specification]
#[verifier::external_body]
#[verifier::reject_recursive_types(T)]
pub struct ExReceiver<T>(Receiver<T>);

/// `std::sync::mpsc::SendError`: a message that the channel did not take.
/// Opaque.
#[verifier::external_type_specification]
#[verifier::external_body]
#[verifier::reject_recursive_types(T)]
pub struct ExSendError<T>(SendError<T>);

/// `std::sync::mpsc::RecvError`: every sending end is gone. Opaque.
#[verifier::external_type_specification]
#[verifier::external_body]
pub struct ExRecvError(RecvError);

/// `std::sync::mpsc::TryRecvError`: nothing is waiting, or every sending
/// end is gone.
#[verifier::external_type_specification]
pub struct ExTryRecvError(TryRecvError);

/// `std::sync::Mutex`: a lock around a value. Opaque.
#[verifier::external_type_specification]
#[verifier::external_body]
#[verifier::reject_recursive_types(T)]
pub struct ExMutex<T: ?Sized>(Mutex<T>);

/// `std::sync::MutexGuard`: a held lock. Opaque.
#[verifier::external_type_specification]
#[verifier::external_body]
#[verifier::reject_recursive_types(T)]
pub struct ExMutexGuard<'a, T: ?Sized + 'a>(MutexGuard<'a, T>);

/// `std::sync::PoisonError`: what a lock hands out after a holder of it
/// panicked. Opaque.
#[verifier::external_type_specification]
#[verifier::external_body]
#[verifier::reject_recursive_types(T)]
pub struct ExPoisonError<T>(PoisonError<T>);

/// `std::sync::mpsc::channel`: a fresh channel, given as its two ends.
pub assume_specification<T>[ std::sync::mpsc::channel::<T> ]() -> (ends: (Sender<T>, Receiver<T>));

/// `Sender::send`: hands a message to the channel, or gives up because the
/// receiving end is gone.
pub assume_specification<T>[ Sender::<T>::send ](tx: &Sender<T>, message: T) -> (r: Result<
    (),
    SendError<T>,
>);

/// `Sender::clone`: one more sending end of the same channel.
pub assume_specification<T>[ <Sender<T> as Clone>::clone ](tx: &Sender<T>) -> (other: Sender<T>);

/// `Receiver::recv`: waits for the next message, or gives up because every
/// sending end is gone.
pub assume_specification<T>[ Receiver::<T>::recv ](rx: &Receiver<T>) -> (r: Result<T, RecvError>);

/// `Receiver::try_recv`: the next message if one is waiting.
pub assume_specification<T>[ Receiver::<T>::try_recv ](rx: &Receiver<T>) -> (r: Result<
    T,
    TryRecvError,
>);

/// `Mutex::new`: a lock around a value.
pub assume_specification<T>[ Mutex::<T>::new ](value: T) -> (lock: Mutex<T>);

/// `Mutex::lock`: waits for the lock.
pub assume_specification<'a, T: ?Sized>[ Mutex::<T>::lock ](lock: &'a Mutex<T>) -> (r: Result<
    MutexGuard<'a, T>,
    PoisonError<MutexGuard<'a, T>>,
>);

/// `PoisonError::into_inner`: the guard that a poisoned lock still handed out.
pub assume_specification<T>[ PoisonError::<T>::into_inner ](error: PoisonError<T>) -> (guard: T);

/// `MutexGuard::deref`: the value behind a held lock.
pub assume_specification<'a, 'b, T: ?Sized>[ <MutexGuard<'a, T> as core::ops::Deref>::deref ](
    guard: &'b MutexGuard<'a, T>,
) -> (value: &'b T);

/// `MutexGuard::deref_mut`: the value behind a held lock, to be changed.
pub assume_specification<'a, 'b, T: ?Sized>[ <MutexGuard<'a, T> as core::ops::DerefMut>::deref_mut ](
    guard: &'b mut MutexGuard<'a, T>,
) -> (value: &'b mut T);

/// One more handle on the same shared value.
///
/// Trusted: this is `Arc::clone`, which copies the handle and leaves the
/// value it points to where it is.
#[verifier::external_body]
pub(crate) fn share<T>(shared: &Arc<T>) -> (other: Arc<T>)
    ensures
        other == *shared,
{
    Arc::clone(shared)
}

} // verus!
