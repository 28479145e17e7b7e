//! Input events, after the event model of web browsers.

use vstd::prelude::*;

verus! {

/// The device class that an event comes from.
#[derive(Clone, Copy, Debug, PartialEq, Eq, Structural)]
pub enum EventType {
    Pointer,
    Keyboard,
}

/// What happened to a pointer.
#[derive(Debug, PartialEq, Eq)]
pub enum PointerEventType {
    Unknown,
    Over,
    Enter,
    Down,
    Move,
    Up,
    Cancel,
    Out,
    Leave,
    GotCapture,
    LostCapture,
    Other(String),
}

/// The kind of device behind a pointer.
#[derive(Debug, PartialEq, Eq)]
pub enum PointerType {
    Unknown,
    Mouse,
    Pen,
    Touch,
    Other(String),
}

/// The data of a pointer event. Lengths and pressures are held in
/// thousandths: of a pixel, and of the full pressure.
#[derive(Debug)]
pub struct PointerEventData {
    pub event_type: PointerEventType,
    pub pointer_id: u32,
    pub width: u64,
    pub height: u64,
    pub pressure: u32,
    pub tangential_pressure: i32,
    pub tilt_x: u32,
    pub tilt_y: u32,
    pub twist: u32,
    pub pointer_type: PointerType,
    pub is_primary: bool,
}

impl PointerEventData {
    /// The data of an event of which nothing is known: a contact of one
    /// pixel by one pixel, without pressure, tilt or twist.
    pub open spec fn unknown() -> PointerEventData {
        PointerEventData {
            event_type: PointerEventType::Unknown,
            pointer_id: 0,
            width: 1000,
            height: 1000,
            pressure: 0,
            tangential_pressure: 0,
            tilt_x: 0,
            tilt_y: 0,
            twist: 0,
            pointer_type: PointerType::Unknown,
            is_primary: false,
        }
    }
}

impl Default for PointerEventData {
    fn default() -> (data: PointerEventData)
        ensures
            data == PointerEventData::unknown(),
    {
        PointerEventData {
            event_type: PointerEventType::Unknown,
            pointer_id: 0,
            width: 1000,
            height: 1000,
            pressure: 0,
            tangential_pressure: 0,
            tilt_x: 0,
            tilt_y: 0,
            twist: 0,
            pointer_type: PointerType::Unknown,
            is_primary: false,
        }
    }
}

/// The data of a keyboard event: the key, and whether it is held down long
/// enough to repeat.
#[derive(Debug)]
pub struct KeyboardEventData {
    pub key: String,
    pub repeat: bool,
}

/// What an event holds.
pub ghost struct EventView {
    pub event_type: EventType,
    pub keyboard_event_data: Option<KeyboardEventData>,
    pub pointer_event_data: Option<PointerEventData>,
}

/// One input event: its device class, and the data of that class.
#[derive(Debug)]
pub struct Event {
    event_type: EventType,
    keyboard_event_data: Option<KeyboardEventData>,
    pointer_event_data: Option<PointerEventData>,
}

impl View for Event {
    type V = EventView;

    closed spec fn view(&self) -> EventView {
        EventView {
            event_type: self.event_type,
            keyboard_event_data: self.keyboard_event_data,
            pointer_event_data: self.pointer_event_data,
        }
    }
}

impl Event {
    /// The event of a pointer.
    pub fn pointer(data: PointerEventData) -> (event: Event)
        ensures
            event@ == (EventView {
                event_type: EventType::Pointer,
                keyboard_event_data: None,
                pointer_event_data: Some(data),
            }),
    {
        Event {
            event_type: EventType::Pointer,
            keyboard_event_data: None,
            pointer_event_data: Some(data),
        }
    }

    /// The event of a keyboard.
    pub fn keyboard(data: KeyboardEventData) -> (event: Event)
        ensures
            event@ == (EventView {
                event_type: EventType::Keyboard,
                keyboard_event_data: Some(data),
                pointer_event_data: None,
            }),
    {
        Event {
            event_type: EventType::Keyboard,
            keyboard_event_data: Some(data),
            pointer_event_data: None,
        }
    }

    pub fn event_type(&self) -> (event_type: EventType)
        ensures
            event_type == self@.event_type,
    {
        self.event_type
    }

    pub fn pointer_event_data(&self) -> (data: &Option<PointerEventData>)
        ensures
            *data == self@.pointer_event_data,
    {
        &self.pointer_event_data
    }

    pub fn keyboard_event_data(&self) -> (data: &Option<KeyboardEventData>)
        ensures
            *data == self@.keyboard_event_data,
    {
        &self.keyboard_event_data
    }
}

} // verus!
