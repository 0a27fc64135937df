use staccato::event::{AppEvent, Event, RawEvent};
use staccato::event_dispatcher::{EventDispatcher, EventHandler, StdEventDispatcher};
use staccato::fallible::Fallible;
use staccato::playground::Main;

#[derive(Debug, Clone, Copy, PartialEq, Eq)]
enum Answer {
    Decline,
    Consume,
    Fail(u32),
}

#[derive(Debug, Clone, PartialEq, Eq)]
struct Recorder {
    answer: Answer,
    seen: Vec<u64>,
}

impl Recorder {
    fn new(answer: Answer) -> Recorder {
        Recorder { answer, seen: Vec::new() }
    }
}

impl Fallible for Recorder {
    type Error = u32;
}

impl EventHandler<Event> for Recorder {
    fn handle(&mut self, event: &Event) -> Result<bool, u32> {
        self.seen.push(event.ns_timestamp);
        match self.answer {
            Answer::Decline => Ok(false),
            Answer::Consume => Ok(true),
            Answer::Fail(code) => Err(code),
        }
    }
}

fn quit(at: u64) -> Event {
    Event { ns_timestamp: at, raw: RawEvent::Quit }
}

#[test]
fn fire_second_handler_consumes() {
    let mut handlers = vec![Recorder::new(Answer::Decline), Recorder::new(Answer::Consume)];
    let outcome = StdEventDispatcher::new().fire(&mut handlers, &quit(5));
    assert_eq!(outcome, Ok(true));
    assert_eq!(handlers[0].seen, vec![5]);
    assert_eq!(handlers[1].seen, vec![5]);
}

#[test]
fn fire_first_handler_consumes() {
    let mut handlers = vec![Recorder::new(Answer::Consume), Recorder::new(Answer::Consume)];
    let outcome = StdEventDispatcher::default().fire(&mut handlers, &quit(5));
    assert_eq!(outcome, Ok(true));
    assert_eq!(handlers[0].seen, vec![5]);
    assert!(handlers[1].seen.is_empty());
}

#[test]
fn fire_first_handler_fails() {
    let mut handlers = vec![Recorder::new(Answer::Fail(7)), Recorder::new(Answer::Consume)];
    let outcome = StdEventDispatcher::new().fire(&mut handlers, &quit(5));
    assert_eq!(outcome, Err(7));
    assert_eq!(handlers[0].seen, vec![5]);
    assert!(handlers[1].seen.is_empty());
}

#[test]
fn fire_failure_in_the_middle_stops_the_chain() {
    let mut handlers = vec![
        Recorder::new(Answer::Decline),
        Recorder::new(Answer::Fail(3)),
        Recorder::new(Answer::Consume),
    ];
    let outcome = StdEventDispatcher::new().fire(&mut handlers, &quit(9));
    assert_eq!(outcome, Err(3));
    assert_eq!(handlers[0].seen, vec![9]);
    assert_eq!(handlers[1].seen, vec![9]);
    assert!(handlers[2].seen.is_empty());
}

#[test]
fn fire_all_decline_is_not_handled() {
    let mut handlers = vec![Recorder::new(Answer::Decline); 4];
    let outcome = StdEventDispatcher::new().fire(&mut handlers, &quit(1));
    assert_eq!(outcome, Ok(false));
    for handler in &handlers {
        assert_eq!(handler.seen, vec![1]);
    }
}

#[test]
fn fire_without_handlers_is_not_handled() {
    let mut handlers: Vec<Recorder> = Vec::new();
    assert_eq!(StdEventDispatcher::new().fire(&mut handlers, &quit(1)), Ok(false));
}

#[test]
fn fire_keeps_the_order_of_the_handlers() {
    let mut handlers = vec![
        Recorder::new(Answer::Decline),
        Recorder::new(Answer::Decline),
        Recorder::new(Answer::Consume),
        Recorder::new(Answer::Fail(1)),
    ];
    let dispatcher = StdEventDispatcher::new();
    assert_eq!(dispatcher.fire(&mut handlers, &quit(1)), Ok(true));
    assert_eq!(dispatcher.fire(&mut handlers, &quit(2)), Ok(true));
    assert_eq!(handlers[0].seen, vec![1, 2]);
    assert_eq!(handlers[1].seen, vec![1, 2]);
    assert_eq!(handlers[2].seen, vec![1, 2]);
    assert!(handlers[3].seen.is_empty());
}

#[test]
fn sample_handler_stops_on_quit() {
    let mut handlers = vec![Main::new()];
    let dispatcher = StdEventDispatcher::new();
    let keymap = Event { ns_timestamp: 1, raw: RawEvent::KeymapChanged };
    assert_eq!(dispatcher.fire(&mut handlers, &keymap), Ok(true));
    assert!(handlers[0].running);
    assert_eq!(dispatcher.fire(&mut handlers, &quit(2)), Ok(true));
    assert!(!handlers[0].running);
}

#[test]
fn sample_handler_stops_on_terminating_and_on_window_close() {
    let mut main = Main::new();
    let low = Event { ns_timestamp: 1, raw: RawEvent::App { event: AppEvent::LowMemory } };
    assert_eq!(main.handle(&low), Ok(true));
    assert!(main.running);
    let ending = Event { ns_timestamp: 1, raw: RawEvent::App { event: AppEvent::Terminating } };
    assert_eq!(main.handle(&ending), Ok(true));
    assert!(!main.running);
    let mut main = Main::new();
    let close = Event { ns_timestamp: 1, raw: RawEvent::WindowClose { id: 3 } };
    assert_eq!(main.handle(&close), Ok(true));
    assert!(!main.running);
}
