use std::cell::RefCell;
use std::rc::Rc;

use engine::event_system::event_system::EventSystem;
use engine::event_system::event_types::{Event, EventListener, EventType, NativeEventHandler};
use engine::event_system::global_event_system::GlobalEventSystem;

struct Recorder {
    name: &'static str,
    log: Rc<RefCell<Vec<String>>>,
}

impl EventListener<String> for Recorder {
    fn update(&self, event: &Event<String>) {
        self.log.borrow_mut().push(format!("{}:{}", self.name, event.payload));
    }
}

/// Raw events are strings: "key:<text>" is a keyboard move, "mouse:<text>"
/// a camera rotation; anything else parses to nothing.
struct TextHandler;

impl NativeEventHandler<str, String> for TextHandler {
    fn parse_keyboard_event(&self, event: &str) -> Option<Event<String>> {
        event.strip_prefix("key:").map(|t| Event { event_type: EventType::Move, payload: t.to_string() })
    }

    fn parse_mouse_event(&self, event: &str) -> Option<Event<String>> {
        event
            .strip_prefix("mouse:")
            .map(|t| Event { event_type: EventType::RotateCamera, payload: t.to_string() })
    }

    fn parse_mouse_click_event(&self, _event: &str) -> Option<Event<String>> {
        None
    }

    fn should_process_mouse_movement(&self) -> bool {
        true
    }
}

fn recorder(name: &'static str, log: &Rc<RefCell<Vec<String>>>) -> Recorder {
    Recorder { name, log: log.clone() }
}

#[test]
fn notify_reaches_subscribers_of_the_type_in_order() {
    let log = Rc::new(RefCell::new(Vec::new()));
    let mut sys: EventSystem<Recorder, TextHandler> = EventSystem::new(TextHandler);
    sys.subscribe(EventType::Move, recorder("a", &log));
    sys.subscribe(EventType::RotateCamera, recorder("r", &log));
    sys.subscribe(EventType::Move, recorder("b", &log));
    assert_eq!(sys.listeners_for(EventType::Move), vec![0, 2]);
    assert_eq!(sys.listeners_for(EventType::RotateCamera), vec![1]);
    assert!(sys.listeners_for(EventType::MouseMove).is_empty());
    sys.notify(&Event { event_type: EventType::Move, payload: "forward".to_string() });
    assert_eq!(*log.borrow(), vec!["a:forward".to_string(), "b:forward".to_string()]);
    sys.notify(&Event { event_type: EventType::KeyboardUp, payload: "x".to_string() });
    assert_eq!(log.borrow().len(), 2);
}

#[test]
fn native_events_are_parsed_then_notified() {
    let log = Rc::new(RefCell::new(Vec::new()));
    let mut sys: EventSystem<Recorder, TextHandler> = EventSystem::new(TextHandler);
    sys.subscribe(EventType::Move, recorder("m", &log));
    sys.subscribe(EventType::RotateCamera, recorder("c", &log));
    sys.receive_native_keyboard_event("key:left");
    sys.receive_native_keyboard_event("noise");
    sys.receive_native_mouse_event("mouse:dx");
    sys.receive_native_mouse_event("key:ignored");
    assert_eq!(*log.borrow(), vec!["m:left".to_string(), "c:dx".to_string()]);
}

#[test]
fn global_event_system_dispatches_like_the_local_one() {
    let log = Rc::new(RefCell::new(Vec::new()));
    let mut sys: GlobalEventSystem<Recorder, TextHandler> = GlobalEventSystem::initialize(TextHandler);
    sys.subscribe(EventType::Move, recorder("g", &log));
    sys.notify(&Event { event_type: EventType::Move, payload: "back".to_string() });
    sys.receive_native_keyboard_event("key:right");
    sys.receive_native_mouse_event("mouse:dy");
    assert_eq!(*log.borrow(), vec!["g:back".to_string(), "g:right".to_string()]);
}

#[test]
fn a_new_subscriber_is_reached_last() {
    let log = Rc::new(RefCell::new(Vec::new()));
    let mut sys: EventSystem<Recorder, TextHandler> = EventSystem::new(TextHandler);
    sys.subscribe(EventType::Move, recorder("first", &log));
    sys.subscribe(EventType::RotateCamera, recorder("other", &log));
    sys.subscribe(EventType::Move, recorder("last", &log));
    assert_eq!(sys.listeners_for(EventType::Move).last(), Some(&2));
    sys.notify(&Event { event_type: EventType::Move, payload: "x".to_string() });
    assert_eq!(log.borrow().last(), Some(&"last:x".to_string()));
    assert_eq!(sys.listeners_for(EventType::RotateCamera), vec![1]);
}
