//! The application: the owner of the window, the registry and the channel.

use vstd::prelude::*;
use std::sync::mpsc::{channel, Receiver, RecvError, Sender};
use crate::error::SystrayError;
use crate::event::SystrayEvent;
use crate::registry::{Registry, RegistryView};
use crate::window::{Request, Window};

verus! {

/// What an application holds, as a mathematical value: its window, its
/// registry, the two ends of the event channel, and whether its window was
/// shut down.
///
/// The application retains a sending end for as long as it runs, that is,
/// from its creation until `quit` is called or the channel is found closed.
/// The receiving end is its own for all of its life.
#[verifier::ext_equal]
pub ghost struct ApplicationView<W, C> {
    pub window: W,
    pub registry: RegistryView<C>,
    pub sender: Option<Sender<SystrayEvent>>,
    pub receiver: Receiver<SystrayEvent>,
    pub shut_down: bool,
}

/// What the receiving end's answer means to the application: the index of
/// the event that arrived, or `None` where the channel is closed.
pub open spec fn message_of(got: Result<SystrayEvent, RecvError>) -> Option<u32> {
    match got {
        Ok(event) => Some(event@),
        Err(_) => None,
    }
}

impl<W, C> ApplicationView<W, C> {
    /// A new application around `window`, with `sender` and `receiver` for
    /// the ends of its channel: nothing allocated, running, not shut down.
    pub open spec fn initial(
        window: W,
        sender: Sender<SystrayEvent>,
        receiver: Receiver<SystrayEvent>,
    ) -> Self {
        ApplicationView {
            window,
            registry: RegistryView::empty(),
            sender: Some(sender),
            receiver,
            shut_down: false,
        }
    }

    /// Whether the application still runs: it does for as long as it
    /// retains a sending end.
    pub open spec fn running(self) -> bool {
        self.sender is Some
    }

    /// The application after `callback` was registered under the next index.
    pub open spec fn registered(self, callback: C) -> Self {
        ApplicationView { registry: self.registry.register(callback), ..self }
    }

    /// The application after the next index went to a separator.
    pub open spec fn allocated(self) -> Self {
        ApplicationView { registry: self.registry.allocate(), ..self }
    }

    /// The application once it has quit, with what quitting made of the
    /// window.
    pub open spec fn stopped(self, window: W) -> Self {
        ApplicationView { window, sender: None, ..self }
    }

    /// The callback that an event for `idx` invokes: the one that is idle at
    /// `idx`, as long as the application runs.
    pub open spec fn due(self, idx: u32) -> Option<C> {
        if self.running() {
            self.registry.callback(idx)
        } else {
            None
        }
    }

    /// The application as the callback of `idx` sees it when it is invoked:
    /// with its own slot checked out.
    pub open spec fn checked_out(self, idx: u32) -> Self {
        ApplicationView { registry: self.registry.check_out(idx), ..self }
    }

    /// The application after the invocation: `callback` is back in its slot
    /// if the invocation left the slot checked out, and is dropped if not.
    pub open spec fn restored(self, idx: u32, callback: C) -> Self {
        if self.registry.is_checked_out(idx) {
            ApplicationView { registry: self.registry.put_back(idx, callback), ..self }
        } else {
            self
        }
    }

    /// What the platform's answer to a new menu entry makes of the
    /// application: with `Ok`, `callback` is registered; with an error,
    /// nothing changes.
    pub open spec fn after_menu_item(self, created: Result<(), SystrayError>, callback: C) -> Self {
        if created is Ok {
            self.registered(callback)
        } else {
            self
        }
    }

    /// What the platform's answer to a new separator makes of the
    /// application.
    pub open spec fn after_separator(self, created: Result<(), SystrayError>) -> Self {
        if created is Ok {
            self.allocated()
        } else {
            self
        }
    }

    /// What the window's answer to a shutdown makes of the application: a
    /// shutdown that succeeded is remembered.
    pub open spec fn after_shutdown(self, down: Result<(), SystrayError>) -> Self {
        if down is Ok {
            ApplicationView { shut_down: true, ..self }
        } else {
            self
        }
    }

    /// Whether the window is still to be torn down when the application
    /// goes: it is, until a shutdown has succeeded.
    pub open spec fn teardown_due(self) -> bool {
        !self.shut_down
    }
}

impl<W: Window, C: Callback<W>> ApplicationView<W, C> {
    /// Whether handling an event for `idx` can lead from `self` to `after`.
    ///
    /// Where a callback is due, it is invoked on the application with its
    /// slot checked out, and then put back. Where none is due (the index is
    /// unknown, its callback is out, or the application has quit), nothing
    /// changes.
    pub open spec fn dispatches(self, idx: u32, after: Self) -> bool {
        match self.due(idx) {
            Some(callback) => exists|left: Self|
                {
                    &&& #[trigger] callback.effect(self.checked_out(idx), left)
                    &&& after == left.restored(idx, callback)
                },
            None => after == self,
        }
    }

    /// Whether handling `message` can lead from `self` to `after`. `None`
    /// stands for the report that the channel is closed, on which the
    /// application quits.
    pub open spec fn handles(self, message: Option<u32>, after: Self) -> bool {
        match message {
            Some(idx) => self.dispatches(idx, after),
            None => self.window.quits(after.window) && after == self.stopped(after.window),
        }
    }

    /// Whether one wait for a message can lead from `self` to `after`.
    ///
    /// An application that runs asks its own receiving end for the next
    /// message and handles what the receiving end returns. One that has quit
    /// asks nothing and stays as it is.
    pub open spec fn waits(self, after: Self) -> bool {
        if self.running() {
            exists|got: Result<SystrayEvent, RecvError>|
                {
                    &&& #[trigger] call_ensures(
                        Receiver::<SystrayEvent>::recv,
                        (&self.receiver,),
                        got,
                    )
                    &&& self.handles(message_of(got), after)
                }
        } else {
            after == self
        }
    }
}

/// Whether setting an application up can go this way: the channel is made
/// with the ends `sender` and `receiver`, and the window's creation, given
/// the clone `given` of `sender`, returns `window`.
pub open spec fn sets_up<W: Window>(
    sender: Sender<SystrayEvent>,
    receiver: Receiver<SystrayEvent>,
    given: Sender<SystrayEvent>,
    window: Result<W, SystrayError>,
) -> bool {
    &&& call_ensures(channel::<SystrayEvent>, (), (sender, receiver))
    &&& cloned(sender, given)
    &&& W::creates(given, window)
}

/// The tray application.
///
/// It owns the platform window, the callback registry and the receiving end
/// of the event channel, and it keeps one sending end for as long as it
/// runs. `W` is the platform window and `C` the type of the callbacks.
pub struct Application<W, C> {
    window: W,
    registry: Registry<C>,
    rx: Receiver<SystrayEvent>,
    tx: Option<Sender<SystrayEvent>>,
    shut_down: bool,
}

impl<W, C> View for Application<W, C> {
    type V = ApplicationView<W, C>;

    closed spec fn view(&self) -> ApplicationView<W, C> {
        ApplicationView {
            window: self.window,
            registry: self.registry@,
            sender: self.tx,
            receiver: self.rx,
            shut_down: self.shut_down,
        }
    }
}

/// A unit of behaviour bound to a menu index.
///
/// A callback is invoked with the application itself, which it may change:
/// it may add menu items and callbacks, change the icon, or quit.
pub trait Callback<W: Window>: Sized {
    /// What one invocation may make of an application: `effect(before,
    /// after)` holds of every pair of states between which `call` can lead.
    /// An implementation that says nothing here promises nothing; one that
    /// wants its callers to know what `call` does says it here, and `call`
    /// is then held to it.
    open spec fn effect(
        &self,
        before: ApplicationView<W, Self>,
        after: ApplicationView<W, Self>,
    ) -> bool {
        true
    }

    /// Runs the callback on `app`.
    fn call(&self, app: &mut Application<W, Self>)
        ensures
            self.effect(old(app)@, final(app)@),
    ;
}

impl<W: Window, C> Application<W, C> {
    /// Creates the event channel and the platform window, and the
    /// application around them. The window is given a clone of the sending
    /// end that the application retains. Where the window's creation fails,
    /// the error is handed on.
    pub fn new() -> (made: Result<Self, SystrayError>)
        ensures
            match made {
                Ok(app) => {
                    &&& app@.sender matches Some(sender)
                    &&& app@ == ApplicationView::<W, C>::initial(
                        app@.window,
                        sender,
                        app@.receiver,
                    )
                    &&& exists|given: Sender<SystrayEvent>| #[trigger]
                        sets_up::<W>(sender, app@.receiver, given, Ok(app@.window))
                },
                Err(e) => exists|
                    sender: Sender<SystrayEvent>,
                    receiver: Receiver<SystrayEvent>,
                    given: Sender<SystrayEvent>,
                | #[trigger] sets_up::<W>(sender, receiver, given, Err(e)),
            },
    {
        let (event_tx, event_rx) = channel();
        let given = event_tx.clone();
        let window = W::new(given);
        // The witness of how the set-up went.
        assert(sets_up::<W>(event_tx, event_rx, given, window));
        Self::from_parts(window, event_tx, event_rx)
    }

    /// Builds the application around a window that was created with a
    /// sending end of the channel whose two ends are `event_tx` and
    /// `event_rx`. Where the window's creation failed, its error is handed
    /// on.
    pub fn from_parts(
        window: Result<W, SystrayError>,
        event_tx: Sender<SystrayEvent>,
        event_rx: Receiver<SystrayEvent>,
    ) -> (made: Result<Self, SystrayError>)
        ensures
            match window {
                Ok(w) => made matches Ok(app) && app@ == ApplicationView::<W, C>::initial(
                    w,
                    event_tx,
                    event_rx,
                ),
                Err(e) => made matches Err(handed) && handed == e,
            },
    {
        match window {
            Ok(w) => Ok(
                Application {
                    window: w,
                    registry: Registry::new(),
                    rx: event_rx,
                    tx: Some(event_tx),
                    shut_down: false,
                },
            ),
            Err(e) => Err(e),
        }
    }

    /// Whether the application is still running.
    pub fn is_running(&self) -> (running: bool)
        ensures
            running == self@.running(),
    {
        self.tx.is_some()
    }

    /// The index that the next menu item, separator or callback gets. No
    /// slot of the registry is at or above it.
    pub fn next_index(&self) -> (next: u32)
        ensures
            next == self@.registry.next,
            self@.registry.wf(),
    {
        self.registry.next_index()
    }

    /// Another sending end of the event channel: a clone of the one that
    /// the application retains. What is sent into it reaches the application
    /// like the platform's own events.
    pub fn get_sender(&self) -> (sender: Sender<SystrayEvent>)
        requires
            self@.running(),
        ensures
            self@.sender matches Some(retained) && cloned(retained, sender),
    {
        self.tx.clone().unwrap()
    }

    /// Registers `f` under the next index, without a menu entry of its own.
    pub fn add_callback(&mut self, f: C) -> (event: SystrayEvent)
        requires
            old(self)@.registry.next < u32::MAX,
        ensures
            event@ == old(self)@.registry.next,
            final(self)@ == old(self)@.registered(f),
    {
        let idx = self.registry.register(f);
        SystrayEvent::from(idx)
    }

    /// Adds a menu entry named `item_name` and binds `f` to it. The window
    /// is asked for the entry under the next index. Where it refuses, its
    /// error is returned, no index is used up and `f` is dropped.
    pub fn add_menu_item(&mut self, item_name: &str, f: C) -> (added: Result<
        SystrayEvent,
        SystrayError,
    >)
        requires
            old(self)@.registry.next < u32::MAX,
        ensures
            match added {
                Ok(event) => {
                    &&& event@ == old(self)@.registry.next
                    &&& final(self)@ == old(self)@.registered(f)
                    &&& old(self)@.window.answers(
                        Request::AddMenuEntry(old(self)@.registry.next, item_name@),
                        Ok(()),
                    )
                },
                Err(e) => {
                    &&& final(self)@ == old(self)@
                    &&& old(self)@.window.answers(
                        Request::AddMenuEntry(old(self)@.registry.next, item_name@),
                        Err(e),
                    )
                },
            },
    {
        let idx = self.registry.next_index();
        let created = self.window.add_menu_entry(idx, item_name);
        // There is one value of the unit type, so a success is `Ok(())`.
        assert(created matches Ok(unit) ==> unit == ());
        self.commit_menu_item(created, f)
    }

    /// Completes `add_menu_item` once the window has answered with
    /// `created`.
    pub fn commit_menu_item(&mut self, created: Result<(), SystrayError>, f: C) -> (added: Result<
        SystrayEvent,
        SystrayError,
    >)
        requires
            created is Ok ==> old(self)@.registry.next < u32::MAX,
        ensures
            final(self)@ == old(self)@.after_menu_item(created, f),
            match created {
                Ok(_) => added matches Ok(event) && event@ == old(self)@.registry.next,
                Err(e) => added matches Err(handed) && handed == e,
            },
    {
        match created {
            Ok(_) => Ok(self.add_callback(f)),
            Err(e) => Err(e),
        }
    }

    /// Adds a divider to the menu. It uses up an index like an entry, and
    /// has no callback. Where the window refuses, its error is returned and
    /// no index is used up.
    pub fn add_menu_separator(&mut self) -> (added: Result<u32, SystrayError>)
        requires
            old(self)@.registry.next < u32::MAX,
        ensures
            match added {
                Ok(idx) => {
                    &&& idx == old(self)@.registry.next
                    &&& final(self)@ == old(self)@.allocated()
                    &&& old(self)@.window.answers(Request::AddMenuSeparator(idx), Ok(()))
                },
                Err(e) => {
                    &&& final(self)@ == old(self)@
                    &&& old(self)@.window.answers(
                        Request::AddMenuSeparator(old(self)@.registry.next),
                        Err(e),
                    )
                },
            },
    {
        let idx = self.registry.next_index();
        let created = self.window.add_menu_separator(idx);
        // There is one value of the unit type, so a success is `Ok(())`.
        assert(created matches Ok(unit) ==> unit == ());
        self.commit_menu_separator(created)
    }

    /// Completes `add_menu_separator` once the window has answered with
    /// `created`.
    pub fn commit_menu_separator(&mut self, created: Result<(), SystrayError>) -> (added: Result<
        u32,
        SystrayError,
    >)
        requires
            created is Ok ==> old(self)@.registry.next < u32::MAX,
        ensures
            final(self)@ == old(self)@.after_separator(created),
            match created {
                Ok(_) => added == Ok::<u32, SystrayError>(old(self)@.registry.next),
                Err(e) => added matches Err(handed) && handed == e,
            },
    {
        match created {
            Ok(_) => Ok(self.registry.allocate()),
            Err(e) => Err(e),
        }
    }

    /// Shows the icon stored in a file. The answer is the window's.
    pub fn set_icon_from_file(&self, file: &str) -> (set: Result<(), SystrayError>)
        ensures
            self@.window.answers(Request::SetIconFromFile(file@), set),
    {
        self.window.set_icon_from_file(file)
    }

    /// Shows an icon that the platform knows by name. The answer is the
    /// window's.
    pub fn set_icon_from_resource(&self, resource: &str) -> (set: Result<(), SystrayError>)
        ensures
            self@.window.answers(Request::SetIconFromResource(resource@), set),
    {
        self.window.set_icon_from_resource(resource)
    }

    /// Shows an icon given as raw pixels of `width` by `height`. The answer
    /// is the window's.
    pub fn set_icon_from_buffer(&mut self, buffer: &[u8], width: u32, height: u32) -> (set: Result<
        (),
        SystrayError,
    >)
        ensures
            final(self)@ == old(self)@,
            old(self)@.window.answers(Request::SetIconFromBuffer(buffer@, width, height), set),
    {
        self.window.set_icon_from_buffer(buffer, width, height)
    }

    /// Tears the platform window down. The answer is the window's. Every
    /// call reaches the window, also one that follows a shutdown that
    /// succeeded; the application remembers only that one has succeeded.
    pub fn shutdown(&mut self) -> (down: Result<(), SystrayError>)
        ensures
            final(self)@ == old(self)@.after_shutdown(down),
            old(self)@.window.answers(Request::Shutdown, down),
    {
        let down = self.window.shutdown();
        if down.is_ok() {
            self.shut_down = true;
        }
        down
    }

    /// Whether the window is still to be torn down when the application
    /// goes out of use: it is, unless a shutdown has succeeded.
    pub fn teardown_due(&self) -> (due: bool)
        ensures
            due == self@.teardown_due(),
    {
        !self.shut_down
    }

    /// Sets the text shown when the pointer rests on the icon. The answer
    /// is the window's.
    pub fn set_tooltip(&self, tooltip: &str) -> (set: Result<(), SystrayError>)
        ensures
            self@.window.answers(Request::SetTooltip(tooltip@), set),
    {
        self.window.set_tooltip(tooltip)
    }

    /// Stops the application: the window's event thread is asked to stop,
    /// the sending end is released, and no callback is invoked from now on.
    pub fn quit(&mut self)
        ensures
            old(self)@.window.quits(final(self)@.window),
            final(self)@ == old(self)@.stopped(final(self)@.window),
    {
        self.window.quit();
        self.tx = None;
    }
}

/// The handling of events. These functions invoke callbacks, so they ask
/// that `C` is one; the functions above do not, and a callback is free to
/// call them.
impl<W: Window, C: Callback<W>> Application<W, C> {
    /// Handles one event: invokes the callback that is due for its index, if
    /// there is one.
    ///
    /// The callback is moved out of the registry for the time of the call,
    /// so that it can be handed the whole application. An event for which
    /// no callback is due is passed over.
    pub fn dispatch(&mut self, event: SystrayEvent)
        ensures
            old(self)@.dispatches(event@, final(self)@),
            old(self)@.due(event@) is None ==> final(self)@ == old(self)@,
    {
        if self.tx.is_none() {
            return;
        }
        let idx = event.menu_index();
        match self.registry.take(idx) {
            Some(callback) => {
                callback.call(self);
                let ghost left = self@;
                if self.registry.is_checked_out(idx) {
                    self.registry.put_back(idx, callback);
                }
                // The witness of what the callback left behind.
                assert(callback.effect(old(self)@.checked_out(idx), left));
            },
            None => {},
        }
    }

    /// Handles what the channel delivered: an event, or with `None` the
    /// report that the channel is closed. Returns whether the application
    /// still runs.
    pub fn handle_message(&mut self, message: Option<SystrayEvent>) -> (running: bool)
        ensures
            old(self)@.handles(
                match message {
                    Some(event) => Some(event@),
                    None => None,
                },
                final(self)@,
            ),
            running == final(self)@.running(),
    {
        match message {
            Some(event) => self.dispatch(event),
            None => self.quit(),
        }
        self.tx.is_some()
    }

    /// Waits for the next message and handles it. Returns whether the
    /// application still runs: a program repeats the call for as long as it
    /// does, and so runs its message loop.
    ///
    /// The call blocks until a message arrives. An application that has
    /// quit returns at once, and leaves what is queued in the channel where
    /// it is.
    #[must_use]
    pub fn wait_for_message(&mut self) -> (running: bool)
        ensures
            old(self)@.waits(final(self)@),
            running == final(self)@.running(),
    {
        if self.tx.is_none() {
            return false;
        }
        let got = self.rx.recv();
        let message = match got {
            Ok(event) => Some(event),
            Err(_) => None,
        };
        let running = self.handle_message(message);
        // The witness of what the receiving end returned.
        assert(call_ensures(Receiver::<SystrayEvent>::recv, (&old(self)@.receiver,), got));
        running
    }
}

} // verus!
