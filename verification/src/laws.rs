//! What holds of the registry and of the application, whatever the calls.
//!
//! The laws speak of the views and of the functions on them in which the
//! executable functions state what they do.

use vstd::prelude::*;
use std::sync::mpsc::{Receiver, Sender};
use crate::application::{ApplicationView, Callback};
use crate::error::SystrayError;
use crate::event::SystrayEvent;
use crate::registry::RegistryView;
use crate::window::Window;

verus! {

/// One call that asks for a new index, with what decides its outcome.
pub ghost enum Attempt<C> {
    /// `add_callback` with this callback.
    Callback(C),
    /// `add_menu_item` with the platform's answer and this callback.
    MenuItem(Result<(), SystrayError>, C),
    /// `add_menu_separator` with the platform's answer.
    Separator(Result<(), SystrayError>),
}

impl<C> Attempt<C> {
    /// Whether the call returns an index.
    pub open spec fn succeeds(self) -> bool {
        match self {
            Attempt::Callback(_) => true,
            Attempt::MenuItem(created, _) => created is Ok,
            Attempt::Separator(created) => created is Ok,
        }
    }

    /// The index that the call returns on `app`, if it returns one: the
    /// next index of `app`.
    pub open spec fn returned<W>(self, app: ApplicationView<W, C>) -> Option<u32> {
        if self.succeeds() {
            Some(app.registry.next)
        } else {
            None
        }
    }

    /// The application after the call.
    pub open spec fn apply<W>(self, app: ApplicationView<W, C>) -> ApplicationView<W, C> {
        match self {
            Attempt::Callback(f) => app.registered(f),
            Attempt::MenuItem(created, f) => app.after_menu_item(created, f),
            Attempt::Separator(created) => app.after_separator(created),
        }
    }
}

/// The application after all of `attempts`, made in order.
pub open spec fn after_all<W, C>(
    app: ApplicationView<W, C>,
    attempts: Seq<Attempt<C>>,
) -> ApplicationView<W, C>
    decreases attempts.len(),
{
    if attempts.len() == 0 {
        app
    } else {
        attempts.last().apply(after_all(app, attempts.drop_last()))
    }
}

/// How many of `attempts` return an index.
pub open spec fn successes<C>(attempts: Seq<Attempt<C>>) -> nat
    decreases attempts.len(),
{
    if attempts.len() == 0 {
        0
    } else {
        successes(attempts.drop_last()) + if attempts.last().succeeds() {
            1nat
        } else {
            0nat
        }
    }
}

/// After any calls, the next index is the first one plus the number of calls
/// that succeeded: a call that succeeds uses up one index, and one that
/// fails uses up none. The calls change nothing else: not the window, not
/// the ends of the channel, not what is remembered of a shutdown.
pub proof fn lemma_next_index_counts_successes<W, C>(
    app: ApplicationView<W, C>,
    attempts: Seq<Attempt<C>>,
)
    requires
        app.registry.next + successes(attempts) <= u32::MAX,
    ensures
        after_all(app, attempts).registry.next == app.registry.next + successes(attempts),
        after_all(app, attempts).sender == app.sender,
        after_all(app, attempts).receiver == app.receiver,
        after_all(app, attempts).shut_down == app.shut_down,
        after_all(app, attempts).window == app.window,
    decreases attempts.len(),
{
    if attempts.len() > 0 {
        lemma_next_index_counts_successes(app, attempts.drop_last());
    }
}

/// A call that succeeds returns the first index plus the number of calls
/// that succeeded before it, however many failed in between: after `n`
/// successes on a new application the next success returns `n`, and the one
/// after that `n + 1`.
pub proof fn lemma_returned_index_counts_earlier_successes<W, C>(
    app: ApplicationView<W, C>,
    attempts: Seq<Attempt<C>>,
    position: int,
)
    requires
        0 <= position < attempts.len(),
        attempts[position].succeeds(),
        app.registry.next + successes(attempts.take(position)) <= u32::MAX,
    ensures
        attempts[position].returned(after_all(app, attempts.take(position))) == Some(
            (app.registry.next + successes(attempts.take(position))) as u32,
        ),
{
    lemma_next_index_counts_successes(app, attempts.take(position));
}

/// Where every call succeeds, the calls on a new application return the
/// indices 0, 1, 2 and so on, each one more than the one before and none
/// left out: the call that comes after `count` others returns `count`.
pub proof fn lemma_indices_are_consecutive<W, C>(
    window: W,
    sender: Sender<SystrayEvent>,
    receiver: Receiver<SystrayEvent>,
    attempts: Seq<Attempt<C>>,
    count: int,
)
    requires
        0 <= count < attempts.len(),
        count <= u32::MAX,
        forall|i: int| 0 <= i < attempts.len() ==> (#[trigger] attempts[i]).succeeds(),
    ensures
        attempts[count].returned(
            after_all(
                ApplicationView::<W, C>::initial(window, sender, receiver),
                attempts.take(count),
            ),
        ) == Some(count as u32),
{
    let earlier = attempts.take(count);
    lemma_all_succeed(earlier);
    lemma_next_index_counts_successes(
        ApplicationView::<W, C>::initial(window, sender, receiver),
        earlier,
    );
}

/// Where every call succeeds, the successes are as many as the calls.
proof fn lemma_all_succeed<C>(attempts: Seq<Attempt<C>>)
    requires
        forall|i: int| 0 <= i < attempts.len() ==> (#[trigger] attempts[i]).succeeds(),
    ensures
        successes(attempts) == attempts.len(),
    decreases attempts.len(),
{
    if attempts.len() > 0 {
        lemma_all_succeed(attempts.drop_last());
    }
}

/// A call that fails returns no index and leaves the application as it was,
/// so the call after it returns what the failed one would have returned.
pub proof fn lemma_failure_keeps_the_index<W, C>(
    app: ApplicationView<W, C>,
    failed: Attempt<C>,
    next: Attempt<C>,
)
    requires
        !failed.succeeds(),
    ensures
        failed.returned(app) is None,
        failed.apply(app) == app,
        next.returned(failed.apply(app)) == next.returned(app),
        next.succeeds() ==> next.returned(failed.apply(app)) == Some(app.registry.next),
{
}

/// A registry that is well-formed stays so under each of its operations,
/// and the index that it hands out next has no slot yet.
pub proof fn lemma_registry_stays_well_formed<C>(registry: RegistryView<C>, idx: u32, callback: C)
    requires
        registry.wf(),
    ensures
        RegistryView::<C>::empty().wf(),
        !registry.slots.contains_key(registry.next),
        registry.next < u32::MAX ==> registry.allocate().wf() && registry.register(callback).wf(),
        registry.slots.contains_key(idx) ==> registry.check_out(idx).wf() && registry.put_back(
            idx,
            callback,
        ).wf(),
{
}

/// No operation of the registry removes a slot: an index that has one keeps
/// it.
pub proof fn lemma_slots_never_vanish<C>(
    registry: RegistryView<C>,
    known: u32,
    idx: u32,
    callback: C,
)
    requires
        registry.slots.contains_key(known),
    ensures
        registry.allocate().slots.contains_key(known),
        registry.register(callback).slots.contains_key(known),
        registry.check_out(idx).slots.contains_key(known),
        registry.put_back(idx, callback).slots.contains_key(known),
{
}

/// Taking a callback out of its slot and putting it back at once leaves the
/// registry as it was before.
pub proof fn lemma_take_then_put_back<C>(registry: RegistryView<C>, idx: u32, callback: C)
    requires
        registry.callback(idx) == Some(callback),
    ensures
        registry.check_out(idx).is_checked_out(idx),
        registry.check_out(idx).put_back(idx, callback) == registry,
{
    assert(registry.check_out(idx).put_back(idx, callback).slots =~= registry.slots);
}

/// The same of a callback that was just registered: it is idle at the index
/// it was given, and a round through `take` and `put_back` changes nothing.
pub proof fn lemma_register_then_take_then_put_back<C>(registry: RegistryView<C>, callback: C)
    ensures
        registry.register(callback).callback(registry.next) == Some(callback),
        registry.register(callback).check_out(registry.next).put_back(registry.next, callback)
            == registry.register(callback),
{
    lemma_take_then_put_back(registry.register(callback), registry.next, callback);
}

/// An event for an index that was never registered changes nothing.
pub proof fn lemma_unknown_index_changes_nothing<W: Window, C: Callback<W>>(
    app: ApplicationView<W, C>,
    idx: u32,
    after: ApplicationView<W, C>,
)
    requires
        !app.registry.slots.contains_key(idx),
        app.dispatches(idx, after),
    ensures
        after == app,
{
}

/// A callback that registers another one while it runs leaves both behind:
/// the new callback is idle under the index that was next, which is above
/// the index of the callback that ran, and an event for it invokes it.
pub proof fn lemma_callback_registered_by_a_callback_is_due<W: Window, C: Callback<W>>(
    app: ApplicationView<W, C>,
    idx: u32,
    callback: C,
    added: C,
    after: ApplicationView<W, C>,
)
    requires
        app.registry.wf(),
        app.registry.next < u32::MAX,
        app.due(idx) == Some(callback),
        forall|before: ApplicationView<W, C>, left: ApplicationView<W, C>| #[trigger]
            callback.effect(before, left) ==> left == before.registered(added),
        app.dispatches(idx, after),
    ensures
        idx < app.registry.next,
        after.registry.next == app.registry.next + 1,
        after.due(app.registry.next) == Some(added),
        after.due(idx) == Some(callback),
{
}

/// Once the application has quit, no callback is due for any index, and an
/// event changes nothing, whatever its index.
pub proof fn lemma_nothing_is_invoked_after_quit<W: Window, C: Callback<W>>(
    app: ApplicationView<W, C>,
    window: W,
    idx: u32,
    after: ApplicationView<W, C>,
)
    requires
        app.stopped(window).handles(Some(idx), after),
    ensures
        !app.stopped(window).running(),
        app.stopped(window).due(idx) is None,
        after == app.stopped(window),
{
}

/// The report that the channel is closed stops the application and leaves
/// the registry as it is.
pub proof fn lemma_closed_channel_stops_the_application<W: Window, C: Callback<W>>(
    app: ApplicationView<W, C>,
    after: ApplicationView<W, C>,
)
    requires
        app.handles(None, after),
    ensures
        !after.running(),
        after.registry == app.registry,
        app.window.quits(after.window),
{
}

/// An application that has quit does not run again, whatever message it is
/// given to handle.
pub proof fn lemma_quit_is_final<W: Window, C: Callback<W>>(
    app: ApplicationView<W, C>,
    message: Option<u32>,
    after: ApplicationView<W, C>,
)
    requires
        !app.running(),
        app.handles(message, after),
    ensures
        !after.running(),
        after.registry == app.registry,
{
}

/// An application that has quit waits for nothing: a wait leaves it as it
/// is, whatever is queued in the channel.
pub proof fn lemma_wait_after_quit_changes_nothing<W: Window, C: Callback<W>>(
    app: ApplicationView<W, C>,
    after: ApplicationView<W, C>,
)
    requires
        !app.running(),
        app.waits(after),
    ensures
        after == app,
{
}

/// A new application is due a teardown. A shutdown that succeeded is
/// remembered, so that none is due any more; one that failed changes
/// nothing. Nothing else of the application changes either way.
pub proof fn lemma_shutdown_is_remembered<W, C>(
    app: ApplicationView<W, C>,
    down: Result<(), SystrayError>,
)
    ensures
        app.registry == RegistryView::<C>::empty() && app == ApplicationView::<W, C>::initial(
            app.window,
            app.sender.unwrap(),
            app.receiver,
        ) ==> app.teardown_due(),
        down is Ok ==> !app.after_shutdown(down).teardown_due(),
        down is Err ==> app.after_shutdown(down) == app,
        app.after_shutdown(down).registry == app.registry,
        app.after_shutdown(down).sender == app.sender,
        app.after_shutdown(down).window == app.window,
{
}

/// A callback that leaves the application as it finds it leaves no trace of
/// its invocation: it is back in its slot, and the application is as it was
/// before the event.
pub proof fn lemma_quiet_callback_leaves_no_trace<W: Window, C: Callback<W>>(
    app: ApplicationView<W, C>,
    idx: u32,
    callback: C,
    after: ApplicationView<W, C>,
)
    requires
        app.due(idx) == Some(callback),
        forall|before: ApplicationView<W, C>, left: ApplicationView<W, C>| #[trigger]
            callback.effect(before, left) ==> left == before,
        app.dispatches(idx, after),
    ensures
        after == app,
{
    lemma_take_then_put_back(app.registry, idx, callback);
}

} // verus!
