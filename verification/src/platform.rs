//! What the library relies on from `tokio`'s channels and from the clock and task types of `std`.
//!
//! Every contract in this file is taken on trust from the function it names.
//!
//! A channel is shared between threads, so most of what a channel answers depends on what the
//! other threads did so far. Such an answer is left open here, and the contracts of the library
//! refer to it by `call_ensures`: `call_ensures(f, (x,), y)` says that a call `f(x)` may answer `y`
//! at some moment of the run. Of a call that changes what it is made on, such as a send, that is
//! only what it answered when it was made.
//!
//! As a specification value, a sending handle stands for the channel that it feeds: two handles
//! are equal exactly when they belong to the same channel. A receiving handle also stands for
//! what was done with it so far.
use std::task::{Context, Poll, Waker};
use std::time::{Duration, Instant};

use tokio::sync::mpsc::error::{SendError, TryRecvError, TrySendError};
use tokio::sync::mpsc::{
    OwnedPermit, Permit, Receiver, Sender, UnboundedReceiver, UnboundedSender, WeakSender,
    WeakUnboundedSender,
};
use tokio::sync::{SetOnce, SetOnceError};
use vstd::prelude::*;

verus! {

/// `tokio::sync::mpsc::Sender`, the sending handle of a bounded channel.
#[verifier::external_type_specification]
#[verifier::external_body]
#[verifier::reject_recursive_types(T)]
pub struct ExSender<T>(tokio::sync::mpsc::Sender<T>);

/// `tokio::sync::mpsc::WeakSender`, a handle that does not keep a bounded channel open.
#[verifier::external_type_specification]
#[verifier::external_body]
#[verifier::reject_recursive_types(T)]
pub struct ExWeakSender<T>(tokio::sync::mpsc::WeakSender<T>);

/// `tokio::sync::mpsc::Permit`, a reserved slot of a bounded channel.
#[verifier::external_type_specification]
#[verifier::external_body]
#[verifier::reject_recursive_types(T)]
pub struct ExPermit<'a, T>(tokio::sync::mpsc::Permit<'a, T>);

/// `tokio::sync::mpsc::OwnedPermit`, a reserved slot of a bounded channel that holds its sender.
#[verifier::external_type_specification]
#[verifier::external_body]
#[verifier::reject_recursive_types(T)]
pub struct ExOwnedPermit<T>(tokio::sync::mpsc::OwnedPermit<T>);

/// `tokio::sync::mpsc::Receiver`, the receiving handle of a bounded channel.
#[verifier::external_type_specification]
#[verifier::external_body]
#[verifier::reject_recursive_types(T)]
pub struct ExReceiver<T>(tokio::sync::mpsc::Receiver<T>);

/// `tokio::sync::mpsc::UnboundedSender`, the sending handle of an unbounded channel.
#[verifier::external_type_specification]
#[verifier::external_body]
#[verifier::reject_recursive_types(T)]
pub struct ExUnboundedSender<T>(tokio::sync::mpsc::UnboundedSender<T>);

/// `tokio::sync::mpsc::WeakUnboundedSender`, a handle that does not keep an unbounded channel
/// open.
#[verifier::external_type_specification]
#[verifier::external_body]
#[verifier::reject_recursive_types(T)]
pub struct ExWeakUnboundedSender<T>(tokio::sync::mpsc::WeakUnboundedSender<T>);

/// `tokio::sync::mpsc::UnboundedReceiver`, the receiving handle of an unbounded channel.
#[verifier::external_type_specification]
#[verifier::external_body]
#[verifier::reject_recursive_types(T)]
pub struct ExUnboundedReceiver<T>(tokio::sync::mpsc::UnboundedReceiver<T>);

/// `tokio::sync::mpsc::error::SendError`, with its public field.
#[verifier::external_type_specification]
pub struct ExSendError<T>(tokio::sync::mpsc::error::SendError<T>);

/// `tokio::sync::mpsc::error::TrySendError`, with its public variants.
#[verifier::external_type_specification]
pub struct ExTrySendError<T>(tokio::sync::mpsc::error::TrySendError<T>);

/// `tokio::sync::mpsc::error::SendTimeoutError`, with its public variants.
#[verifier::external_type_specification]
pub struct ExSendTimeoutError<T>(tokio::sync::mpsc::error::SendTimeoutError<T>);

/// `tokio::sync::mpsc::error::TryRecvError`, with its public variants.
#[verifier::external_type_specification]
pub struct ExTryRecvError(tokio::sync::mpsc::error::TryRecvError);

/// `tokio::sync::SetOnce`, a shared cell that is written at most once.
#[verifier::external_type_specification]
#[verifier::external_body]
#[verifier::reject_recursive_types(T)]
pub struct ExSetOnce<T>(tokio::sync::SetOnce<T>);

/// `tokio::sync::SetOnceError`, with its public field.
#[verifier::external_type_specification]
pub struct ExSetOnceError<T>(tokio::sync::SetOnceError<T>);

/// `std::task::Poll`, with its variants.
#[verifier::external_type_specification]
pub struct ExPoll<T>(std::task::Poll<T>);

/// `std::task::Context`, which names the task that is being polled.
#[verifier::external_type_specification]
#[verifier::external_body]
pub struct ExContext<'a>(std::task::Context<'a>);

/// `std::task::Waker`, which wakes a task up.
#[verifier::external_type_specification]
#[verifier::external_body]
pub struct ExWaker(std::task::Waker);

/// `std::time::Instant`, a point on the monotonic clock.
#[verifier::external_type_specification]
#[verifier::external_body]
pub struct ExInstant(std::time::Instant);

/// The largest buffer that a bounded channel can have.
pub open spec fn max_buffer() -> usize {
    usize::MAX / 8
}

/// The largest number of values that a channel can hold.
pub open spec fn max_queued() -> usize {
    usize::MAX / 2
}

/// The value that a refused `try_send` hands back.
pub open spec fn refused_value<T>(error: TrySendError<T>) -> T {
    match error {
        TrySendError::Full(value) => value,
        TrySendError::Closed(value) => value,
    }
}

/// Whether `sender` can only answer that its channel has at most `limit` free slots.
pub open spec fn capacity_within<T>(sender: Sender<T>, limit: usize) -> bool {
    forall|free: usize| #[trigger]
        call_ensures(Sender::<T>::capacity, (&sender,), free) ==> free <= limit
}

/// Whether `receiver` can only answer that at most `limit` values are queued.
pub open spec fn len_within<T>(receiver: Receiver<T>, limit: usize) -> bool {
    forall|len: usize| #[trigger]
        call_ensures(Receiver::<T>::len, (&receiver,), len) ==> len <= limit
}

/// Whether `weak` was downgraded from a handle of the channel that `sender` feeds.
pub open spec fn downgraded<T>(sender: Sender<T>, weak: WeakSender<T>) -> bool {
    call_ensures(Sender::<T>::downgrade, (&sender,), weak)
}

/// Whether `weak` was downgraded from a handle of the unbounded channel that `sender` feeds.
pub open spec fn downgraded_unbounded<T>(
    sender: UnboundedSender<T>,
    weak: WeakUnboundedSender<T>,
) -> bool {
    call_ensures(UnboundedSender::<T>::downgrade, (&sender,), weak)
}

/// Whether `value` was put into a bounded channel: by a `try_send`, or into a reserved slot. The
/// sends that wait reserve a slot first.
pub open spec fn sent_bounded<T>(value: T) -> bool {
    ||| exists|sender: Sender<T>| #[trigger]
        call_ensures(Sender::<T>::try_send, (&sender, value), Ok(()))
    ||| exists|permit: Permit<'_, T>| #[trigger]
        call_ensures(Permit::<'_, T>::send, (permit, value), ())
    ||| exists|permit: OwnedPermit<T>, sender: Sender<T>| #[trigger]
        call_ensures(OwnedPermit::<T>::send, (permit, value), sender)
}

/// Whether a sender of an unbounded channel took `value`.
pub open spec fn sent_unbounded<T>(value: T) -> bool {
    exists|sender: UnboundedSender<T>| #[trigger]
        call_ensures(UnboundedSender::<T>::send, (&sender, value), Ok(()))
}

/// Whether `receiver` can only answer that its channel is closed.
pub open spec fn closed_for_good<T>(receiver: Receiver<T>) -> bool {
    forall|closed: bool| #[trigger]
        call_ensures(Receiver::<T>::is_closed, (&receiver,), closed) ==> closed
}

/// Whether `receiver` can only answer that its unbounded channel is closed.
pub open spec fn closed_for_good_unbounded<T>(receiver: UnboundedReceiver<T>) -> bool {
    forall|closed: bool| #[trigger]
        call_ensures(UnboundedReceiver::<T>::is_closed, (&receiver,), closed) ==> closed
}

/// `tokio::sync::mpsc::channel`. It panics on an empty buffer, and on one that is larger than
/// the semaphore behind the channel can count. There are never more free slots than the buffer
/// has, and never more queued values.
pub assume_specification<T>[ tokio::sync::mpsc::channel::<T> ](buffer: usize) -> (ends: (
    Sender<T>,
    Receiver<T>,
))
    requires
        0 < buffer <= max_buffer(),
    ensures
        capacity_within(ends.0, buffer),
        len_within(ends.1, buffer),
;

/// `tokio::sync::mpsc::unbounded_channel`.
pub assume_specification<T>[ tokio::sync::mpsc::unbounded_channel::<T> ]() -> (ends: (
    UnboundedSender<T>,
    UnboundedReceiver<T>,
));

/// `Sender::try_send`. Whether there is room depends on the other threads. A refused message
/// comes back in the error. A channel that is reported as closed or full was so.
pub assume_specification<T>[ Sender::<T>::try_send ](sender: &Sender<T>, message: T) -> (res:
    Result<(), TrySendError<T>>)
    ensures
        res matches Err(error) ==> refused_value(error) == message,
        res matches Err(TrySendError::Closed(_)) ==> call_ensures(
            Sender::<T>::is_closed,
            (sender,),
            true,
        ),
        res matches Err(TrySendError::Full(_)) ==> call_ensures(
            Sender::<T>::capacity,
            (sender,),
            0usize,
        ),
;

/// `Sender::is_closed`.
pub assume_specification<T>[ Sender::<T>::is_closed ](sender: &Sender<T>) -> bool;

/// `Sender::same_channel`, which compares the addresses of the two channels.
pub assume_specification<T>[ Sender::<T>::same_channel ](
    sender: &Sender<T>,
    other: &Sender<T>,
) -> (same: bool)
    ensures
        same == (*sender == *other),
;

/// `Sender::capacity`, the number of free slots at the time of the call.
pub assume_specification<T>[ Sender::<T>::capacity ](sender: &Sender<T>) -> usize;

/// `Sender::downgrade`. [`downgraded`] names what it answers.
pub assume_specification<T>[ Sender::<T>::downgrade ](sender: &Sender<T>) -> WeakSender<T>;

/// `Sender::strong_count`, which counts the handle itself.
pub assume_specification<T>[ Sender::<T>::strong_count ](sender: &Sender<T>) -> (count: usize)
    ensures
        count >= 1,
;

/// `Sender::weak_count`.
pub assume_specification<T>[ Sender::<T>::weak_count ](sender: &Sender<T>) -> usize;

/// `Sender::clone`, which hands out another handle of the same channel.
pub assume_specification<T>[ <Sender::<T> as Clone>::clone ](sender: &Sender<T>) -> (res: Sender<
    T,
>)
    ensures
        res == *sender,
;

/// `Permit::send`, which puts a value into the reserved slot.
pub assume_specification<'a, T>[ Permit::<'a, T>::send ](permit: Permit<'a, T>, value: T);

/// `OwnedPermit::send`, which puts a value into the reserved slot and hands the sender back. It is
/// named in [`sent_bounded`].
pub assume_specification<T>[ OwnedPermit::<T>::send ](permit: OwnedPermit<T>, value: T) -> Sender<
    T,
>;

/// `WeakSender::upgrade`. Whether a sender is still alive depends on the other threads. The
/// sender that comes out feeds the channel of the one that was downgraded.
pub assume_specification<T>[ WeakSender::<T>::upgrade ](weak: &WeakSender<T>) -> (res: Option<
    Sender<T>,
>)
    ensures
        res matches Some(sender) ==> forall|origin: Sender<T>| #[trigger]
            downgraded(origin, *weak) ==> sender == origin,
;

/// `WeakSender::strong_count`.
pub assume_specification<T>[ WeakSender::<T>::strong_count ](weak: &WeakSender<T>) -> usize;

/// `WeakSender::weak_count`, which counts the handle itself.
pub assume_specification<T>[ WeakSender::<T>::weak_count ](weak: &WeakSender<T>) -> (count: usize)
    ensures
        count >= 1,
;

/// `WeakSender::clone`, which hands out another weak handle of the same channel.
pub assume_specification<T>[ <WeakSender::<T> as Clone>::clone ](weak: &WeakSender<T>) -> (res:
    WeakSender<T>)
    ensures
        res == *weak,
;

/// `UnboundedSender::send`, which fails only when the channel is closed. A refused message comes
/// back in the error.
pub assume_specification<T>[ UnboundedSender::<T>::send ](
    sender: &UnboundedSender<T>,
    message: T,
) -> (res: Result<(), SendError<T>>)
    ensures
        res matches Err(error) ==> error.0 == message,
        res is Err ==> call_ensures(UnboundedSender::<T>::is_closed, (sender,), true),
;

/// `UnboundedSender::is_closed`.
pub assume_specification<T>[ UnboundedSender::<T>::is_closed ](sender: &UnboundedSender<T>) -> bool;

/// `UnboundedSender::same_channel`, which compares the addresses of the two channels.
pub assume_specification<T>[ UnboundedSender::<T>::same_channel ](
    sender: &UnboundedSender<T>,
    other: &UnboundedSender<T>,
) -> (same: bool)
    ensures
        same == (*sender == *other),
;

/// `UnboundedSender::downgrade`. [`downgraded_unbounded`] names what it answers.
pub assume_specification<T>[ UnboundedSender::<T>::downgrade ](
    sender: &UnboundedSender<T>,
) -> WeakUnboundedSender<T>;

/// `UnboundedSender::strong_count`, which counts the handle itself.
pub assume_specification<T>[ UnboundedSender::<T>::strong_count ](
    sender: &UnboundedSender<T>,
) -> (count: usize)
    ensures
        count >= 1,
;

/// `UnboundedSender::weak_count`.
pub assume_specification<T>[ UnboundedSender::<T>::weak_count ](
    sender: &UnboundedSender<T>,
) -> usize;

/// `UnboundedSender::clone`, which hands out another handle of the same channel.
pub assume_specification<T>[ <UnboundedSender::<T> as Clone>::clone ](
    sender: &UnboundedSender<T>,
) -> (res: UnboundedSender<T>)
    ensures
        res == *sender,
;

/// `WeakUnboundedSender::upgrade`. Whether a sender is still alive depends on the other threads.
/// The sender that comes out feeds the channel of the one that was downgraded.
pub assume_specification<T>[ WeakUnboundedSender::<T>::upgrade ](
    weak: &WeakUnboundedSender<T>,
) -> (res: Option<UnboundedSender<T>>)
    ensures
        res matches Some(sender) ==> forall|origin: UnboundedSender<T>| #[trigger]
            downgraded_unbounded(origin, *weak) ==> sender == origin,
;

/// `WeakUnboundedSender::strong_count`.
pub assume_specification<T>[ WeakUnboundedSender::<T>::strong_count ](
    weak: &WeakUnboundedSender<T>,
) -> usize;

/// `WeakUnboundedSender::weak_count`, which counts the handle itself.
pub assume_specification<T>[ WeakUnboundedSender::<T>::weak_count ](
    weak: &WeakUnboundedSender<T>,
) -> (count: usize)
    ensures
        count >= 1,
;

/// `WeakUnboundedSender::clone`, which hands out another weak handle of the same channel.
pub assume_specification<T>[ <WeakUnboundedSender::<T> as Clone>::clone ](
    weak: &WeakUnboundedSender<T>,
) -> (res: WeakUnboundedSender<T>)
    ensures
        res == *weak,
;

/// `Receiver::try_recv`. What it hands out depends on the senders: [`sent_bounded`] lists every way
/// into the channel. Which channel that was is not said, since a receiving handle does not name its
/// senders. A channel that was closed stays closed, and so does one that is reported as
/// disconnected. The limit on what is queued stays.
pub assume_specification<T>[ Receiver::<T>::try_recv ](receiver: &mut Receiver<T>) -> (res: Result<
    T,
    TryRecvError,
>)
    ensures
        res matches Ok(value) ==> sent_bounded(value),
        closed_for_good(*old(receiver)) ==> closed_for_good(*final(receiver)),
        res == Err::<T, _>(TryRecvError::Disconnected) ==> closed_for_good(*final(receiver)),
        forall|limit: usize| #[trigger]
            len_within(*old(receiver), limit) ==> len_within(*final(receiver), limit),
;

/// `Receiver::poll_recv`. What it hands out depends on the senders: [`sent_bounded`] lists every way
/// into the channel. Which channel that was is not said. A channel that was closed stays closed, and
/// so does one that is reported as ended. The limit on what is queued stays.
pub assume_specification<T>[ Receiver::<T>::poll_recv ](
    receiver: &mut Receiver<T>,
    cx: &mut Context<'_>,
) -> (res: Poll<Option<T>>)
    ensures
        res matches Poll::Ready(Some(value)) ==> sent_bounded(value),
        closed_for_good(*old(receiver)) ==> closed_for_good(*final(receiver)),
        res == Poll::Ready(None::<T>) ==> closed_for_good(*final(receiver)),
        forall|limit: usize| #[trigger]
            len_within(*old(receiver), limit) ==> len_within(*final(receiver), limit),
;

/// `Receiver::close`, after which the channel reports itself closed. The limit on what is queued
/// stays.
pub assume_specification<T>[ Receiver::<T>::close ](receiver: &mut Receiver<T>)
    ensures
        closed_for_good(*final(receiver)),
        forall|limit: usize| #[trigger]
            len_within(*old(receiver), limit) ==> len_within(*final(receiver), limit),
;

/// `Receiver::is_closed`.
pub assume_specification<T>[ Receiver::<T>::is_closed ](receiver: &Receiver<T>) -> bool;

/// `Receiver::is_empty`.
pub assume_specification<T>[ Receiver::<T>::is_empty ](receiver: &Receiver<T>) -> bool;

/// `Receiver::len`. Each queued value holds one of the channel's slots.
pub assume_specification<T>[ Receiver::<T>::len ](receiver: &Receiver<T>) -> (len: usize)
    ensures
        len <= max_queued(),
;

/// `Receiver::sender_strong_count`.
pub assume_specification<T>[ Receiver::<T>::sender_strong_count ](receiver: &Receiver<T>) -> usize;

/// `Receiver::sender_weak_count`.
pub assume_specification<T>[ Receiver::<T>::sender_weak_count ](receiver: &Receiver<T>) -> usize;

/// `UnboundedReceiver::try_recv`. What it hands out depends on the senders: `UnboundedSender::send`
/// is the only way into the channel. Which channel that was is not said. A channel that was closed
/// stays closed, and so does one that is reported as disconnected.
pub assume_specification<T>[ UnboundedReceiver::<T>::try_recv ](
    receiver: &mut UnboundedReceiver<T>,
) -> (res: Result<T, TryRecvError>)
    ensures
        res matches Ok(value) ==> sent_unbounded(value),
        closed_for_good_unbounded(*old(receiver)) ==> closed_for_good_unbounded(*final(receiver)),
        res == Err::<T, _>(TryRecvError::Disconnected) ==> closed_for_good_unbounded(*final(receiver)),
;

/// `UnboundedReceiver::poll_recv`. What it hands out depends on the senders:
/// `UnboundedSender::send` is the only way into the channel. Which channel that was is not said. A
/// channel that was closed stays closed, and so does one that is reported as ended.
pub assume_specification<T>[ UnboundedReceiver::<T>::poll_recv ](
    receiver: &mut UnboundedReceiver<T>,
    cx: &mut Context<'_>,
) -> (res: Poll<Option<T>>)
    ensures
        res matches Poll::Ready(Some(value)) ==> sent_unbounded(value),
        closed_for_good_unbounded(*old(receiver)) ==> closed_for_good_unbounded(*final(receiver)),
        res == Poll::Ready(None::<T>) ==> closed_for_good_unbounded(*final(receiver)),
;

/// `UnboundedReceiver::close`, after which the channel reports itself closed.
pub assume_specification<T>[ UnboundedReceiver::<T>::close ](receiver: &mut UnboundedReceiver<T>)
    ensures
        closed_for_good_unbounded(*final(receiver)),
;

/// `UnboundedReceiver::is_closed`.
pub assume_specification<T>[ UnboundedReceiver::<T>::is_closed ](
    receiver: &UnboundedReceiver<T>,
) -> bool;

/// `UnboundedReceiver::is_empty`.
pub assume_specification<T>[ UnboundedReceiver::<T>::is_empty ](
    receiver: &UnboundedReceiver<T>,
) -> bool;

/// `UnboundedReceiver::len`. The message count of the channel moves in steps of two, and the
/// process aborts before the count overflows.
pub assume_specification<T>[ UnboundedReceiver::<T>::len ](receiver: &UnboundedReceiver<T>) -> (len:
    usize)
    ensures
        len <= max_queued(),
;

/// `UnboundedReceiver::sender_strong_count`.
pub assume_specification<T>[ UnboundedReceiver::<T>::sender_strong_count ](
    receiver: &UnboundedReceiver<T>,
) -> usize;

/// `UnboundedReceiver::sender_weak_count`.
pub assume_specification<T>[ UnboundedReceiver::<T>::sender_weak_count ](
    receiver: &UnboundedReceiver<T>,
) -> usize;

/// Whether `cell`, if it can be initialized, has a value to show.
pub open spec fn shows_once_initialized<T>(cell: SetOnce<T>) -> bool {
    call_ensures(SetOnce::<T>::initialized, (&cell,), true) ==> exists|shown: &T| #[trigger]
        call_ensures(SetOnce::<T>::get, (&cell,), Some(shown))
}

/// `SetOnce::new`. A cell is initialized when it has a value to show.
pub assume_specification<T>[ SetOnce::<T>::new ]() -> (cell: SetOnce<T>)
    ensures
        shows_once_initialized(cell),
;

/// `SetOnce::set`. Whether the cell was still empty depends on the other threads. A refused value
/// comes back in the error. An accepted value is the only one that the cell ever shows. Either way
/// the cell is initialized, and has a value to show.
pub assume_specification<T>[ SetOnce::<T>::set ](cell: &SetOnce<T>, value: T) -> (res: Result<
    (),
    SetOnceError<T>,
>)
    ensures
        res matches Err(error) ==> error.0 == value,
        res is Ok ==> forall|shown: &T| #[trigger]
            call_ensures(SetOnce::<T>::get, (cell,), Some(shown)) ==> *shown == value,
        res is Ok ==> call_ensures(SetOnce::<T>::get, (cell,), Some(&value)),
        res is Err ==> exists|shown: &T| #[trigger]
            call_ensures(SetOnce::<T>::get, (cell,), Some(shown)),
        res is Ok ==> call_ensures(SetOnce::<T>::initialized, (cell,), true),
        res is Err ==> call_ensures(SetOnce::<T>::initialized, (cell,), true),
;

/// `SetOnce::get`. A cell that shows a value is initialized.
pub assume_specification<'a, T>[ SetOnce::<T>::get ](cell: &'a SetOnce<T>) -> (res: Option<&'a T>)
    ensures
        res is Some ==> call_ensures(SetOnce::<T>::initialized, (cell,), true),
;

/// `SetOnce::initialized`.
pub assume_specification<T>[ SetOnce::<T>::initialized ](cell: &SetOnce<T>) -> bool;

/// `Context::waker`, the waker of the task that is being polled.
pub assume_specification<'a>[ Context::<'a>::waker ](cx: &Context<'a>) -> &'a Waker;

/// `Waker::wake_by_ref`.
pub assume_specification[ Waker::wake_by_ref ](waker: &Waker);

/// The length of a duration in nanoseconds, as `Duration::as_nanos` gives it.
pub uninterp spec fn duration_nanos(duration: Duration) -> nat;

/// How much later than `earlier` the instant `now` is, in nanoseconds, and zero if it is not
/// later.
pub uninterp spec fn nanos_between(now: Instant, earlier: Instant) -> nat;

/// `Instant::now`.
pub assume_specification[ Instant::now ]() -> Instant;

/// `Instant::duration_since`, which is zero where `earlier` is the later of the two.
pub assume_specification[ Instant::duration_since ](now: &Instant, earlier: Instant) -> (res:
    Duration)
    ensures
        duration_nanos(res) == nanos_between(*now, earlier),
;

/// `Duration::as_nanos`.
pub assume_specification[ Duration::as_nanos ](duration: &Duration) -> (nanos: u128)
    ensures
        nanos == duration_nanos(*duration),
;

} // verus!
