//! The platform window: the native side of the tray.

use vstd::prelude::*;
use std::sync::mpsc::Sender;
use crate::error::SystrayError;
use crate::event::SystrayEvent;

verus! {

/// What the application can ask of a window that answers with success or an
/// error, with the arguments as mathematical values.
pub ghost enum Request {
    /// A clickable entry with this index and this label.
    AddMenuEntry(u32, Seq<char>),
    /// A divider with this index.
    AddMenuSeparator(u32),
    /// The icon in the file at this path.
    SetIconFromFile(Seq<char>),
    /// The icon that the platform knows under this name.
    SetIconFromResource(Seq<char>),
    /// The icon made of these pixels, of this width and height.
    SetIconFromBuffer(Seq<u8>, u32, u32),
    /// This tooltip.
    SetTooltip(Seq<char>),
    /// The release of the native resources.
    Shutdown,
}

/// The native tray icon and its menu, as the application drives them.
///
/// An implementation owns the native resources and runs the operating
/// system's loop on a thread of its own. Whenever the user activates a menu
/// entry, that thread sends an event with the entry's index into the sending
/// end that `new` was given.
///
/// Three relations say what the methods can do. An implementation
/// that leaves them as they are promises nothing, and what the application
/// proves holds for it all the same; one that narrows them is held to what
/// it says.
pub trait Window: Sized {
    /// Whether `new` can return `made` when it is given `event_tx`.
    open spec fn creates(event_tx: Sender<SystrayEvent>, made: Result<Self, SystrayError>) -> bool {
        true
    }

    /// Whether the window can give `answer` to `request`.
    open spec fn answers(&self, request: Request, answer: Result<(), SystrayError>) -> bool {
        true
    }

    /// Whether `quit` can make `stopping` of the window.
    open spec fn quits(&self, stopping: Self) -> bool {
        true
    }

    /// Creates the native window, its menu and its event thread.
    fn new(event_tx: Sender<SystrayEvent>) -> (made: Result<Self, SystrayError>)
        ensures
            Self::creates(event_tx, made),
    ;

    /// Appends a clickable entry that is bound to `item_idx`.
    fn add_menu_entry(&self, item_idx: u32, item_name: &str) -> (answer: Result<(), SystrayError>)
        ensures
            self.answers(Request::AddMenuEntry(item_idx, item_name@), answer),
    ;

    /// Appends a divider that is bound to `item_idx`.
    fn add_menu_separator(&self, item_idx: u32) -> (answer: Result<(), SystrayError>)
        ensures
            self.answers(Request::AddMenuSeparator(item_idx), answer),
    ;

    /// Shows the icon stored in the file at `file`.
    fn set_icon_from_file(&self, file: &str) -> (answer: Result<(), SystrayError>)
        ensures
            self.answers(Request::SetIconFromFile(file@), answer),
    ;

    /// Shows the icon that the platform knows under the name `resource`.
    fn set_icon_from_resource(&self, resource: &str) -> (answer: Result<(), SystrayError>)
        ensures
            self.answers(Request::SetIconFromResource(resource@), answer),
    ;

    /// Shows the icon given as raw pixels of `width` by `height`.
    fn set_icon_from_buffer(&self, buffer: &[u8], width: u32, height: u32) -> (answer: Result<
        (),
        SystrayError,
    >)
        ensures
            self.answers(Request::SetIconFromBuffer(buffer@, width, height), answer),
    ;

    /// Sets the text shown when the pointer rests on the icon.
    fn set_tooltip(&self, tooltip: &str) -> (answer: Result<(), SystrayError>)
        ensures
            self.answers(Request::SetTooltip(tooltip@), answer),
    ;

    /// Releases the native resources.
    fn shutdown(&self) -> (answer: Result<(), SystrayError>)
        ensures
            self.answers(Request::Shutdown, answer),
    ;

    /// Asks the event thread to stop. Nothing is reported back.
    fn quit(&mut self)
        ensures
            old(self).quits(*final(self)),
    ;
}

} // verus!
