//! The channel between the platform's thread and the application.
//!
//! The platform's thread holds a sending end and the application the
//! receiving end. Events arrive in the order in which they were sent, and
//! the receiving end reports the channel closed once every sending end is
//! gone. The channel is the standard library's; this module declares its
//! types and the three operations that the application performs on it.

use vstd::prelude::*;
use std::sync::mpsc::{Receiver, RecvError, Sender};

verus! {

/// `std::sync::mpsc::Sender`, a sending end. Nothing is stated of what a
/// value of it holds.
#[verifier::external_type_specification]
#[verifier::external_body]
#[verifier::reject_recursive_types(T)]
pub struct ExSender<T>(Sender<T>);

/// `std::sync::mpsc::Receiver`, the receiving end. Nothing is stated of what
/// a value of it holds.
#[verifier::external_type_specification]
#[verifier::external_body]
#[verifier::reject_recursive_types(T)]
pub struct ExReceiver<T>(Receiver<T>);

/// `std::sync::mpsc::RecvError`, which `recv` returns once the channel is
/// closed and empty.
#[verifier::external_type_specification]
#[verifier::external_body]
pub struct ExRecvError(RecvError);

/// `std::sync::mpsc::channel` makes a new channel and returns its two ends.
/// The contract claims nothing of them.
pub assume_specification<T>[ std::sync::mpsc::channel::<T> ]() -> (ends: (Sender<T>, Receiver<T>));

/// `Receiver::recv` blocks until a message arrives or every sending end is
/// gone. What it returns depends on the other threads, so the contract
/// claims nothing of it.
pub assume_specification<T>[ Receiver::<T>::recv ](receiver: &Receiver<T>) -> (message: Result<
    T,
    RecvError,
>);

/// `Sender::clone` makes another sending end of the same channel. The
/// contract claims nothing of it.
pub assume_specification<T>[ <Sender<T> as Clone>::clone ](sender: &Sender<T>) -> (copy: Sender<T>);

} // verus!
