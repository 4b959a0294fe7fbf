//! Key bindings and the event translator: a pure function mapping a raw
//! event plus a binding table into a semantic event, or handing the event
//! back unchanged when nothing is bound to it. Alphabetic keys are matched
//! case-insensitively by testing both letter cases explicitly, since
//! modifiers attach per case.

use vstd::prelude::*;

use crate::event::{
    spec_to_ascii_lowercase,
    spec_to_ascii_uppercase,
    to_ascii_lowercase,
    to_ascii_uppercase,
    Event,
    KeyCode,
    KeyEvent,
    StandardEvent,
};

verus! {

/// The key chords bound to each semantic action, checked in a fixed
/// priority order: yes, no, help, exit, scroll up, scroll down.
#[derive(Debug)]
pub struct KeyBindings {
    pub confirm_yes: Vec<Event>,
    pub confirm_no: Vec<Event>,
    pub help: Vec<Event>,
    pub exit: Vec<Event>,
    pub scroll_up: Vec<Event>,
    pub scroll_down: Vec<Event>,
}

impl KeyBindings {
    pub fn new(
        confirm_yes: Vec<Event>,
        confirm_no: Vec<Event>,
        help: Vec<Event>,
        exit: Vec<Event>,
        scroll_up: Vec<Event>,
        scroll_down: Vec<Event>,
    ) -> (r: Self)
        ensures
            r.confirm_yes@ == confirm_yes@,
            r.confirm_no@ == confirm_no@,
            r.help@ == help@,
            r.exit@ == exit@,
            r.scroll_up@ == scroll_up@,
            r.scroll_down@ == scroll_down@,
    {
        KeyBindings { confirm_yes, confirm_no, help, exit, scroll_up, scroll_down }
    }
}

/// Whether `events` holds `event`.
pub fn contains_event(events: &Vec<Event>, event: Event) -> (r: bool)
    ensures
        r == events@.contains(event),
{
    let count: usize = events.len();
    let mut i: usize = 0;
    while i < count
        invariant
            i <= count == events@.len(),
            forall|j: int| 0 <= j < i ==> events@[j] != event,
        decreases count - i,
    {
        if events[i] == event {
            return true;
        }
        i = i + 1;
    }
    false
}

/// The two case variants of a character key event, sharing its modifiers.
pub open spec fn spec_case_variants(key: KeyEvent, c: char) -> (Event, Event) {
    (
        Event::Key(
            KeyEvent { code: KeyCode::Char(spec_to_ascii_lowercase(c)), modifiers: key.modifiers },
        ),
        Event::Key(
            KeyEvent { code: KeyCode::Char(spec_to_ascii_uppercase(c)), modifiers: key.modifiers },
        ),
    )
}

/// Whether either case variant of the key is bound in `chords`.
pub open spec fn spec_matches_binding(chords: Seq<Event>, key: KeyEvent, c: char) -> bool {
    let variants = spec_case_variants(key, c);
    chords.contains(variants.0) || chords.contains(variants.1)
}

/// What `translate` yields: for a character key, the semantic event of the
/// first action in priority order whose chord set holds either case
/// variant; every other event, and an unbound character key, is handed
/// back unchanged.
pub open spec fn spec_translate(event: Event, bindings: KeyBindings) -> Event {
    match event {
        Event::Key(key) => match key.code {
            KeyCode::Char(c) => {
                if spec_matches_binding(bindings.confirm_yes@, key, c) {
                    Event::Standard(StandardEvent::Yes)
                } else if spec_matches_binding(bindings.confirm_no@, key, c) {
                    Event::Standard(StandardEvent::No)
                } else if spec_matches_binding(bindings.help@, key, c) {
                    Event::Standard(StandardEvent::Help)
                } else if spec_matches_binding(bindings.exit@, key, c) {
                    Event::Standard(StandardEvent::Exit)
                } else if spec_matches_binding(bindings.scroll_up@, key, c) {
                    Event::Standard(StandardEvent::ScrollUp)
                } else if spec_matches_binding(bindings.scroll_down@, key, c) {
                    Event::Standard(StandardEvent::ScrollDown)
                } else {
                    event
                }
            },
            _ => event,
        },
        _ => event,
    }
}

/// Translate a raw event against a binding table: a character key is
/// tested in both letter cases against each action's chords in priority
/// order, and the first match yields that action's semantic event; an
/// event nothing is bound to comes back unchanged, so the active screen
/// decides what an unbound key means.
pub fn translate(event: Event, bindings: &KeyBindings) -> (r: Event)
    ensures
        r == spec_translate(event, *bindings),
{
    if let Event::Key(key) = event {
        if let KeyCode::Char(c) = key.code {
            let event_lower = Event::Key(
                KeyEvent::new(KeyCode::Char(to_ascii_lowercase(c)), key.modifiers),
            );
            let event_upper = Event::Key(
                KeyEvent::new(KeyCode::Char(to_ascii_uppercase(c)), key.modifiers),
            );
            if contains_event(&bindings.confirm_yes, event_lower) || contains_event(
                &bindings.confirm_yes,
                event_upper,
            ) {
                return Event::Standard(StandardEvent::Yes);
            }
            if contains_event(&bindings.confirm_no, event_lower) || contains_event(
                &bindings.confirm_no,
                event_upper,
            ) {
                return Event::Standard(StandardEvent::No);
            }
            if contains_event(&bindings.help, event_lower) || contains_event(
                &bindings.help,
                event_upper,
            ) {
                return Event::Standard(StandardEvent::Help);
            }
            if contains_event(&bindings.exit, event_lower) || contains_event(
                &bindings.exit,
                event_upper,
            ) {
                return Event::Standard(StandardEvent::Exit);
            }
            if contains_event(&bindings.scroll_up, event_lower) || contains_event(
                &bindings.scroll_up,
                event_upper,
            ) {
                return Event::Standard(StandardEvent::ScrollUp);
            }
            if contains_event(&bindings.scroll_down, event_lower) || contains_event(
                &bindings.scroll_down,
                event_upper,
            ) {
                return Event::Standard(StandardEvent::ScrollDown);
            }
        }
    }
    event
}

/// A character key bound to the yes action in either letter case always
/// translates to the semantic yes event, whichever case arrives.
pub proof fn lemma_translate_yes_binding(key: KeyEvent, c: char, bindings: KeyBindings)
    requires
        key.code == KeyCode::Char(c),
        spec_matches_binding(bindings.confirm_yes@, key, c),
    ensures
        spec_translate(Event::Key(key), bindings) == Event::Standard(StandardEvent::Yes),
{
}

/// A character key bound to no action at all comes back unchanged: the
/// module decides what an unbound key means.
pub proof fn lemma_translate_unbound(key: KeyEvent, c: char, bindings: KeyBindings)
    requires
        key.code == KeyCode::Char(c),
        !spec_matches_binding(bindings.confirm_yes@, key, c),
        !spec_matches_binding(bindings.confirm_no@, key, c),
        !spec_matches_binding(bindings.help@, key, c),
        !spec_matches_binding(bindings.exit@, key, c),
        !spec_matches_binding(bindings.scroll_up@, key, c),
        !spec_matches_binding(bindings.scroll_down@, key, c),
    ensures
        spec_translate(Event::Key(key), bindings) == Event::Key(key),
{
}

} // verus!
