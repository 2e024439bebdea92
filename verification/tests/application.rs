use std::cell::{Cell, RefCell};
use std::rc::Rc;
use std::sync::mpsc::{channel, Sender};

use systray::{Application, Callback, SystrayError, SystrayEvent, Window};

/// A window that writes down every request and answers as it was told to.
/// Asked for the icon of a resource whose name is a number, it also sends
/// the event with that index, as the platform's thread does on a click.
struct RecordingWindow {
    log: Rc<RefCell<Vec<String>>>,
    refusal: Rc<RefCell<Option<SystrayError>>>,
    tx: Sender<SystrayEvent>,
}

impl RecordingWindow {
    fn answer(&self, request: String) -> Result<(), SystrayError> {
        self.log.borrow_mut().push(request);
        match self.refusal.borrow().clone() {
            Some(e) => Err(e),
            None => Ok(()),
        }
    }
}

impl Window for RecordingWindow {
    fn new(event_tx: Sender<SystrayEvent>) -> Result<Self, SystrayError> {
        Ok(RecordingWindow {
            log: Rc::new(RefCell::new(Vec::new())),
            refusal: Rc::new(RefCell::new(None)),
            tx: event_tx,
        })
    }

    fn add_menu_entry(&self, item_idx: u32, item_name: &str) -> Result<(), SystrayError> {
        self.answer(format!("entry {} {}", item_idx, item_name))
    }

    fn add_menu_separator(&self, item_idx: u32) -> Result<(), SystrayError> {
        self.answer(format!("separator {}", item_idx))
    }

    fn set_icon_from_file(&self, file: &str) -> Result<(), SystrayError> {
        self.answer(format!("file {}", file))
    }

    fn set_icon_from_resource(&self, resource: &str) -> Result<(), SystrayError> {
        if let Ok(clicked) = resource.parse::<u32>() {
            self.tx.send(SystrayEvent::from(clicked)).unwrap();
        }
        self.answer(format!("resource {}", resource))
    }

    fn set_icon_from_buffer(&self, buffer: &[u8], width: u32, height: u32) -> Result<(), SystrayError> {
        self.answer(format!("buffer {:?} {}x{}", buffer, width, height))
    }

    fn set_tooltip(&self, tooltip: &str) -> Result<(), SystrayError> {
        self.answer(format!("tooltip {}", tooltip))
    }

    fn shutdown(&self) -> Result<(), SystrayError> {
        self.answer(format!("shutdown"))
    }

    fn quit(&mut self) {
        self.log.borrow_mut().push(format!("quit"));
    }
}

/// A window that cannot be created.
struct NoWindow;

impl Window for NoWindow {
    fn new(_event_tx: Sender<SystrayEvent>) -> Result<Self, SystrayError> {
        Err(SystrayError::NotImplementedError)
    }

    fn add_menu_entry(&self, _item_idx: u32, _item_name: &str) -> Result<(), SystrayError> {
        Ok(())
    }

    fn add_menu_separator(&self, _item_idx: u32) -> Result<(), SystrayError> {
        Ok(())
    }

    fn set_icon_from_file(&self, _file: &str) -> Result<(), SystrayError> {
        Ok(())
    }

    fn set_icon_from_resource(&self, _resource: &str) -> Result<(), SystrayError> {
        Ok(())
    }

    fn set_icon_from_buffer(&self, _buffer: &[u8], _width: u32, _height: u32) -> Result<(), SystrayError> {
        Ok(())
    }

    fn set_tooltip(&self, _tooltip: &str) -> Result<(), SystrayError> {
        Ok(())
    }

    fn shutdown(&self) -> Result<(), SystrayError> {
        Ok(())
    }

    fn quit(&mut self) {}
}

/// A callback made of a closure.
struct Handler(Box<dyn Fn(&mut Application<RecordingWindow, Handler>)>);

impl Callback<RecordingWindow> for Handler {
    fn call(&self, app: &mut Application<RecordingWindow, Handler>) {
        (self.0)(app)
    }
}

impl Callback<NoWindow> for Handler {
    fn call(&self, _app: &mut Application<NoWindow, Handler>) {}
}

fn handler<F: Fn(&mut Application<RecordingWindow, Handler>) + 'static>(f: F) -> Handler {
    Handler(Box::new(f))
}

fn counting(counter: &Rc<Cell<u32>>) -> Handler {
    let counter = counter.clone();
    handler(move |_| counter.set(counter.get() + 1))
}

struct Tray {
    app: Application<RecordingWindow, Handler>,
    log: Rc<RefCell<Vec<String>>>,
    refusal: Rc<RefCell<Option<SystrayError>>>,
}

fn tray() -> Tray {
    let log = Rc::new(RefCell::new(Vec::new()));
    let refusal = Rc::new(RefCell::new(None));
    let (tx, rx) = channel();
    let window = RecordingWindow { log: log.clone(), refusal: refusal.clone(), tx: tx.clone() };
    let app = match Application::from_parts(Ok(window), tx, rx) {
        Ok(app) => app,
        Err(_) => panic!("a window that was created makes an application"),
    };
    Tray { app, log, refusal }
}

fn os_error_text(e: &SystrayError) -> String {
    match e {
        SystrayError::OsError(text) => text.clone(),
        _ => panic!("not an OsError"),
    }
}

#[test]
fn new_application_starts_at_index_zero_and_runs() {
    let app: Application<RecordingWindow, Handler> = match Application::new() {
        Ok(app) => app,
        Err(_) => panic!("the window can be created"),
    };
    assert_eq!(app.next_index(), 0);
    assert!(app.is_running());
}

#[test]
fn new_hands_on_the_error_of_the_window() {
    let made: Result<Application<NoWindow, Handler>, SystrayError> = Application::new();
    assert!(matches!(made, Err(SystrayError::NotImplementedError)));
}

#[test]
fn from_parts_hands_on_the_error_it_is_given() {
    let (tx, rx) = channel();
    let made: Result<Application<RecordingWindow, Handler>, SystrayError> =
        Application::from_parts(Err(SystrayError::OsError(String::from("no display"))), tx, rx);
    match made {
        Err(e) => assert_eq!(os_error_text(&e), "no display"),
        Ok(_) => panic!("no window, no application"),
    }
}

#[test]
fn indices_count_up_from_zero_without_gaps() {
    let mut t = tray();
    let hits = Rc::new(Cell::new(0));
    let a: u32 = t.app.add_callback(counting(&hits)).into();
    let b: u32 = t.app.add_menu_item("one", counting(&hits)).unwrap().into();
    let c = t.app.add_menu_separator().unwrap();
    let d: u32 = t.app.add_menu_item("three", counting(&hits)).unwrap().into();
    let e: u32 = t.app.add_callback(counting(&hits)).into();
    let f = t.app.add_menu_separator().unwrap();
    assert_eq!(vec![a, b, c, d, e, f], vec![0, 1, 2, 3, 4, 5]);
    assert_eq!(t.app.next_index(), 6);
}

#[test]
fn the_window_is_asked_under_the_index_that_is_returned() {
    let mut t = tray();
    let hits = Rc::new(Cell::new(0));
    t.app.add_callback(counting(&hits));
    t.app.add_menu_item("Open", counting(&hits)).unwrap();
    t.app.add_menu_separator().unwrap();
    assert_eq!(*t.log.borrow(), vec![String::from("entry 1 Open"), String::from("separator 2")]);
}

#[test]
fn a_refused_menu_item_uses_up_no_index() {
    let mut t = tray();
    let hits = Rc::new(Cell::new(0));
    let first: u32 = t.app.add_menu_item("first", counting(&hits)).unwrap().into();
    assert_eq!(first, 0);

    *t.refusal.borrow_mut() = Some(SystrayError::OsError(String::from("menu is full")));
    match t.app.add_menu_item("refused", counting(&hits)) {
        Err(e) => assert_eq!(os_error_text(&e), "menu is full"),
        Ok(_) => panic!("the window refused the entry"),
    }
    assert_eq!(t.app.next_index(), 1);

    *t.refusal.borrow_mut() = None;
    let second: u32 = t.app.add_menu_item("second", counting(&hits)).unwrap().into();
    assert_eq!(second, 1);
    assert_eq!(
        *t.log.borrow(),
        vec![String::from("entry 0 first"), String::from("entry 1 refused"), String::from("entry 1 second")]
    );
}

#[test]
fn the_callback_of_a_refused_menu_item_is_not_stored() {
    let mut t = tray();
    let refused = Rc::new(Cell::new(0));
    let stored = Rc::new(Cell::new(0));
    *t.refusal.borrow_mut() = Some(SystrayError::UnknownError);
    assert!(matches!(t.app.add_menu_item("refused", counting(&refused)), Err(SystrayError::UnknownError)));
    *t.refusal.borrow_mut() = None;
    let event = t.app.add_menu_item("stored", counting(&stored)).unwrap();
    t.app.dispatch(event);
    assert_eq!(refused.get(), 0);
    assert_eq!(stored.get(), 1);
}

#[test]
fn a_refused_separator_uses_up_no_index() {
    let mut t = tray();
    *t.refusal.borrow_mut() = Some(SystrayError::NotImplementedError);
    assert!(matches!(t.app.add_menu_separator(), Err(SystrayError::NotImplementedError)));
    assert_eq!(t.app.next_index(), 0);
    *t.refusal.borrow_mut() = None;
    assert_eq!(t.app.add_menu_separator().unwrap(), 0);
    assert_eq!(t.app.next_index(), 1);
}

#[test]
fn commit_menu_item_follows_the_answer_it_is_given() {
    let mut t = tray();
    let hits = Rc::new(Cell::new(0));
    let refused = t.app.commit_menu_item(Err(SystrayError::UnknownError), counting(&hits));
    assert!(matches!(refused, Err(SystrayError::UnknownError)));
    assert_eq!(t.app.next_index(), 0);
    let event = t.app.commit_menu_item(Ok(()), counting(&hits)).unwrap();
    assert_eq!(event.menu_index(), 0);
    assert_eq!(t.app.next_index(), 1);
    t.app.dispatch(event);
    assert_eq!(hits.get(), 1);
    assert!(t.log.borrow().is_empty());
}

#[test]
fn commit_menu_separator_follows_the_answer_it_is_given() {
    let mut t = tray();
    match t.app.commit_menu_separator(Err(SystrayError::OsError(String::from("e")))) {
        Err(e) => assert_eq!(os_error_text(&e), "e"),
        Ok(_) => panic!("the answer was an error"),
    }
    assert_eq!(t.app.next_index(), 0);
    assert_eq!(t.app.commit_menu_separator(Ok(())).unwrap(), 0);
    assert_eq!(t.app.commit_menu_separator(Ok(())).unwrap(), 1);
    assert_eq!(t.app.next_index(), 2);
}

#[test]
fn requests_are_forwarded_with_their_arguments() {
    let mut t = tray();
    assert!(t.app.set_icon_from_file("/tmp/icon.png").is_ok());
    assert!(t.app.set_icon_from_resource("main_icon").is_ok());
    assert!(t.app.set_icon_from_buffer(&[1, 2, 3, 4], 2, 2).is_ok());
    assert!(t.app.set_tooltip("hello").is_ok());
    assert!(t.app.shutdown().is_ok());
    assert_eq!(
        *t.log.borrow(),
        vec![
            String::from("file /tmp/icon.png"),
            String::from("resource main_icon"),
            String::from("buffer [1, 2, 3, 4] 2x2"),
            String::from("tooltip hello"),
            String::from("shutdown"),
        ]
    );
    assert_eq!(t.app.next_index(), 0);
    assert!(t.app.is_running());
}

#[test]
fn the_error_of_the_window_is_returned_as_it_is() {
    let mut t = tray();
    *t.refusal.borrow_mut() = Some(SystrayError::OsError(String::from("access denied")));
    assert_eq!(os_error_text(&t.app.set_icon_from_file("a").unwrap_err()), "access denied");
    assert_eq!(os_error_text(&t.app.set_icon_from_resource("b").unwrap_err()), "access denied");
    assert_eq!(os_error_text(&t.app.set_icon_from_buffer(&[], 0, 0).unwrap_err()), "access denied");
    assert_eq!(os_error_text(&t.app.set_tooltip("c").unwrap_err()), "access denied");
    assert_eq!(os_error_text(&t.app.shutdown().unwrap_err()), "access denied");
    *t.refusal.borrow_mut() = Some(SystrayError::NotImplementedError);
    assert!(matches!(t.app.set_tooltip("d"), Err(SystrayError::NotImplementedError)));
    *t.refusal.borrow_mut() = Some(SystrayError::UnknownError);
    assert!(matches!(t.app.shutdown(), Err(SystrayError::UnknownError)));
}

#[test]
fn shutdown_twice_reaches_the_window_twice() {
    let mut t = tray();
    t.app.shutdown().unwrap();
    t.app.shutdown().unwrap();
    assert_eq!(*t.log.borrow(), vec![String::from("shutdown"), String::from("shutdown")]);
}

#[test]
fn a_teardown_is_due_until_a_shutdown_has_succeeded() {
    let mut t = tray();
    assert!(t.app.teardown_due());
    *t.refusal.borrow_mut() = Some(SystrayError::OsError(String::from("busy")));
    assert!(t.app.shutdown().is_err());
    assert!(t.app.teardown_due());
    *t.refusal.borrow_mut() = None;
    assert!(t.app.shutdown().is_ok());
    assert!(!t.app.teardown_due());
    *t.refusal.borrow_mut() = Some(SystrayError::UnknownError);
    assert!(t.app.shutdown().is_err());
    assert!(!t.app.teardown_due());
    assert_eq!(t.log.borrow().len(), 3);
}

#[test]
fn quit_leaves_the_teardown_due() {
    let mut t = tray();
    t.app.quit();
    assert!(t.app.teardown_due());
}

#[test]
fn the_window_is_given_a_sending_end_of_the_channel_that_the_application_reads() {
    let hits = Rc::new(Cell::new(0));
    let mut app: Application<RecordingWindow, Handler> = match Application::new() {
        Ok(app) => app,
        Err(_) => panic!("the window can be created"),
    };
    let other = Rc::new(Cell::new(0));
    app.add_callback(counting(&other));
    let event = app.add_callback(counting(&hits));
    assert_eq!(event.menu_index(), 1);
    app.set_icon_from_resource("1").unwrap();
    assert!(app.wait_for_message());
    assert_eq!((other.get(), hits.get()), (0, 1));
}

#[test]
fn quit_asks_the_window_and_stops_the_application() {
    let mut t = tray();
    assert!(t.app.is_running());
    t.app.quit();
    assert!(!t.app.is_running());
    assert_eq!(*t.log.borrow(), vec![String::from("quit")]);
}

#[test]
fn an_event_invokes_the_callback_of_its_index_only() {
    let mut t = tray();
    let zero = Rc::new(Cell::new(0));
    let one = Rc::new(Cell::new(0));
    let a = t.app.add_callback(counting(&zero));
    let b = t.app.add_callback(counting(&one));
    t.app.dispatch(b);
    assert_eq!((zero.get(), one.get()), (0, 1));
    t.app.dispatch(a);
    t.app.dispatch(b);
    assert_eq!((zero.get(), one.get()), (1, 2));
}

#[test]
fn an_event_for_an_unknown_index_is_skipped() {
    let mut t = tray();
    let hits = Rc::new(Cell::new(0));
    t.app.add_callback(counting(&hits));
    t.app.dispatch(SystrayEvent::from(7));
    assert_eq!(hits.get(), 0);
    assert_eq!(t.app.next_index(), 1);
    assert!(t.app.is_running());
    assert!(t.log.borrow().is_empty());

    let tx = t.app.get_sender();
    tx.send(SystrayEvent::from(4_000_000_000)).unwrap();
    assert!(t.app.wait_for_message());
    assert_eq!(hits.get(), 0);
    assert_eq!(t.app.next_index(), 1);
}

#[test]
fn an_event_for_a_separator_is_skipped() {
    let mut t = tray();
    let hits = Rc::new(Cell::new(0));
    t.app.add_callback(counting(&hits));
    let separator = t.app.add_menu_separator().unwrap();
    assert!(t.app.handle_message(Some(SystrayEvent::from(separator))));
    assert_eq!(hits.get(), 0);
    assert_eq!(t.app.next_index(), 2);
}

#[test]
fn a_callback_can_register_a_callback_that_later_events_invoke() {
    let mut t = tray();
    let late_hits = Rc::new(Cell::new(0));
    let late = late_hits.clone();
    let first = t.app.add_callback(handler(move |app| {
        let added = app.add_menu_item("late", counting(&late)).unwrap();
        assert_eq!(added.menu_index(), 1);
    }));
    assert_eq!(first.menu_index(), 0);
    t.app.dispatch(first);
    assert_eq!(t.app.next_index(), 2);
    assert_eq!(late_hits.get(), 0);
    t.app.dispatch(SystrayEvent::from(1));
    assert_eq!(late_hits.get(), 1);
    assert_eq!(*t.log.borrow(), vec![String::from("entry 1 late")]);
}

#[test]
fn a_callback_is_back_in_its_slot_after_its_invocation() {
    let mut t = tray();
    let hits = Rc::new(Cell::new(0));
    let event = t.app.add_callback(counting(&hits));
    t.app.dispatch(event);
    t.app.dispatch(event);
    t.app.dispatch(event);
    assert_eq!(hits.get(), 3);
}

#[test]
fn a_callback_is_not_entered_again_while_it_runs() {
    let mut t = tray();
    let hits = Rc::new(Cell::new(0));
    let inner = hits.clone();
    let event = t.app.add_callback(handler(move |app| {
        inner.set(inner.get() + 1);
        app.dispatch(SystrayEvent::from(0));
    }));
    t.app.dispatch(event);
    assert_eq!(hits.get(), 1);
    t.app.dispatch(event);
    assert_eq!(hits.get(), 2);
}

#[test]
fn a_callback_that_replaces_the_application_is_dropped_with_the_old_one() {
    let mut t = tray();
    let hits = Rc::new(Cell::new(0));
    let inner = hits.clone();
    let event = t.app.add_callback(handler(move |app| {
        inner.set(inner.get() + 1);
        *app = match Application::new() {
            Ok(fresh) => fresh,
            Err(_) => panic!("the window can be created"),
        };
    }));
    t.app.dispatch(event);
    assert_eq!(hits.get(), 1);
    assert_eq!(t.app.next_index(), 0);
    assert!(t.app.is_running());
    t.app.dispatch(event);
    assert_eq!(hits.get(), 1);
}

#[test]
fn events_are_handled_in_the_order_in_which_they_were_sent() {
    let mut t = tray();
    let seen = Rc::new(RefCell::new(Vec::new()));
    let mut events = Vec::new();
    for name in ["a", "b", "c"] {
        let seen = seen.clone();
        events.push(t.app.add_callback(handler(move |_| seen.borrow_mut().push(name))));
    }
    let tx = t.app.get_sender();
    for i in [2usize, 0, 0, 1, 2] {
        tx.send(events[i]).unwrap();
    }
    for _ in 0..5 {
        assert!(t.app.wait_for_message());
    }
    assert_eq!(*seen.borrow(), vec!["c", "a", "a", "b", "c"]);
}

#[test]
fn no_callback_is_invoked_after_quit_though_events_are_queued() {
    let mut t = tray();
    let pings = Rc::new(Cell::new(0));
    let quit = t.app.add_menu_item("Quit", handler(|app| app.quit())).unwrap();
    let ping = t.app.add_menu_item("Ping", counting(&pings)).unwrap();
    let tx = t.app.get_sender();
    tx.send(ping).unwrap();
    tx.send(quit).unwrap();
    tx.send(ping).unwrap();
    tx.send(ping).unwrap();
    assert!(t.app.wait_for_message());
    assert!(!t.app.wait_for_message());
    assert_eq!(pings.get(), 1);
    assert!(!t.app.wait_for_message());
    assert!(!t.app.wait_for_message());
    assert_eq!(pings.get(), 1);
    t.app.dispatch(ping);
    assert!(!t.app.handle_message(Some(ping)));
    assert_eq!(pings.get(), 1);
}

#[test]
fn a_closed_channel_stops_the_application() {
    let mut t = tray();
    let hits = Rc::new(Cell::new(0));
    t.app.add_callback(counting(&hits));
    assert!(!t.app.handle_message(None));
    assert!(!t.app.is_running());
    assert_eq!(hits.get(), 0);
    assert_eq!(t.app.next_index(), 1);
    assert_eq!(*t.log.borrow(), vec![String::from("quit")]);
}

#[test]
fn ping_ping_quit_counts_two_and_returns() {
    let mut t = tray();
    let counter = Rc::new(Cell::new(0));
    let quit = t.app.add_menu_item("Quit", handler(|app| app.quit())).unwrap();
    let ping = t.app.add_menu_item("Ping", counting(&counter)).unwrap();
    let tx = t.app.get_sender();
    tx.send(ping).unwrap();
    tx.send(ping).unwrap();
    tx.send(quit).unwrap();
    let mut rounds = 0;
    while t.app.wait_for_message() {
        rounds += 1;
    }
    assert_eq!(rounds, 2);
    assert_eq!(counter.get(), 2);
    assert!(!t.app.is_running());
    assert_eq!(
        *t.log.borrow(),
        vec![String::from("entry 0 Quit"), String::from("entry 1 Ping"), String::from("quit")]
    );
}
