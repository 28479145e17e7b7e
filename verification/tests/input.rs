use trencadis::events::{
    Event, EventType, KeyboardEventData, PointerEventData, PointerEventType, PointerType,
};
use trencadis::gestures::{Gesture, GestureMapping};

#[test]
fn it_works() {}

#[test]
fn default_pointer_data_is_an_unknown_contact_of_one_pixel() {
    let d = PointerEventData::default();
    assert_eq!(d.event_type, PointerEventType::Unknown);
    assert_eq!(d.pointer_id, 0);
    assert_eq!(d.width, 1000);
    assert_eq!(d.height, 1000);
    assert_eq!(d.pressure, 0);
    assert_eq!(d.tangential_pressure, 0);
    assert_eq!(d.tilt_x, 0);
    assert_eq!(d.tilt_y, 0);
    assert_eq!(d.twist, 0);
    assert_eq!(d.pointer_type, PointerType::Unknown);
    assert!(!d.is_primary);
}

#[test]
fn events_carry_the_data_of_their_class() {
    let p = Event::pointer(PointerEventData { pointer_id: 4, ..PointerEventData::default() });
    assert_eq!(p.event_type(), EventType::Pointer);
    assert_eq!(p.pointer_event_data().as_ref().map(|d| d.pointer_id), Some(4));
    assert!(p.keyboard_event_data().is_none());
    let k = Event::keyboard(KeyboardEventData { key: "q".to_owned(), repeat: true });
    assert_eq!(k.event_type(), EventType::Keyboard);
    assert!(k.pointer_event_data().is_none());
    assert_eq!(k.keyboard_event_data().as_ref().map(|d| d.key.as_str()), Some("q"));
}

struct OfPointer {
    name: u32,
    pointer_id: u32,
}

impl Gesture for OfPointer {
    fn matches(&self, event: &Event) -> bool {
        self.matches_event(event)
    }

    fn matches_event(&self, event: &Event) -> bool {
        match event.pointer_event_data() {
            Some(data) => data.pointer_id == self.pointer_id,
            None => false,
        }
    }
}

fn pointer_event(pointer_id: u32) -> Event {
    Event::pointer(PointerEventData { pointer_id, ..PointerEventData::default() })
}

#[test]
fn lookup_finds_the_last_gesture_that_matches() {
    let a = OfPointer { name: 1, pointer_id: 5 };
    let b = OfPointer { name: 2, pointer_id: 6 };
    let c = OfPointer { name: 3, pointer_id: 5 };
    let d = OfPointer { name: 4, pointer_id: 7 };
    let mut mapping = GestureMapping::new();
    mapping.register(&a);
    mapping.register(&b);
    mapping.register(&c);
    mapping.register(&d);
    assert_eq!(mapping.lookup_gesture(&pointer_event(5)).map(|g| g.name), Some(3));
    assert_eq!(mapping.lookup_gesture(&pointer_event(6)).map(|g| g.name), Some(2));
    assert_eq!(mapping.lookup_gesture(&pointer_event(7)).map(|g| g.name), Some(4));
    assert_eq!(mapping.lookup_gesture(&pointer_event(8)).map(|g| g.name), None);
}

#[test]
fn lookup_in_an_empty_mapping_finds_nothing() {
    let mapping: GestureMapping<OfPointer> = GestureMapping::new();
    assert!(mapping.lookup_gesture(&pointer_event(0)).is_none());
    let by_default: GestureMapping<OfPointer> = GestureMapping::default();
    assert!(by_default.lookup_gesture(&pointer_event(0)).is_none());
    let k = Event::keyboard(KeyboardEventData { key: "a".to_owned(), repeat: false });
    assert!(mapping.lookup_gesture(&k).is_none());
}
