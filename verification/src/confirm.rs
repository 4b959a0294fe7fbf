//! Binary confirmation prompt: shows a question with the bound yes and no
//! keys, and maps events to a confirmed, declined or other outcome. An
//! unbound character key counts as a decline; that fallback is deliberate
//! and callers rely on it.

use vstd::prelude::*;
use vstd::string::StringExecFns;

use crate::event::{Event, KeyCode, KeyEvent, StandardEvent};
use crate::key_bindings::{contains_event, spec_matches_binding, KeyBindings};
use crate::text::{join, spec_join};
use crate::view_data::ViewData;
use crate::view_line::{plain_style, SegContent, ViewLine};

verus! {

/// Outcome of one event on the prompt.
#[derive(Clone, Copy, Debug, PartialEq, Eq, Structural)]
pub enum Confirmed {
    Yes,
    No,
    Other,
}

/// The prompt line shown for a question and the configured yes and no
/// keys: the question, then the keys joined by commas, as in
/// "Abort (y,Z/n)? ".
pub open spec fn spec_confirm_prompt(
    prompt: Seq<char>,
    confirm_yes: Seq<Seq<char>>,
    confirm_no: Seq<Seq<char>>,
) -> Seq<char> {
    prompt + " ("@ + spec_join(confirm_yes, ","@) + "/"@ + spec_join(confirm_no, ","@) + ")? "@
}

/// What `Confirm::read_event` yields: a character key becomes yes when the
/// yes chords hold either of its case variants and no otherwise; any other
/// event passes through unchanged.
pub open spec fn spec_read_event(event: Event, bindings: KeyBindings) -> Event {
    match event {
        Event::Key(key) => match key.code {
            KeyCode::Char(c) => if spec_matches_binding(bindings.confirm_yes@, key, c) {
                Event::Standard(StandardEvent::Yes)
            } else {
                Event::Standard(StandardEvent::No)
            },
            _ => event,
        },
        _ => event,
    }
}

/// What `Confirm::handle_event` yields for each event.
pub open spec fn spec_handle_event(event: Event) -> Confirmed {
    match event {
        Event::Standard(standard_event) => match standard_event {
            StandardEvent::Yes => Confirmed::Yes,
            StandardEvent::No => Confirmed::No,
            _ => Confirmed::Other,
        },
        _ => Confirmed::Other,
    }
}

/// A yes/no confirmation screen.
#[derive(Debug)]
pub struct Confirm {
    pub view_data: ViewData,
}

impl Confirm {
    /// Prompt whose single line names the question and the yes and no
    /// keys; the title row is shown and no scroll position is retained.
    pub fn new(prompt: &str, confirm_yes: &[String], confirm_no: &[String]) -> (r: Self)
        ensures
            r.view_data.show_title == true,
            r.view_data.retain_scroll_position == false,
            r.view_data.lines@.len() == 1,
            r.view_data.lines@[0].segments =~= seq![
                SegContent {
                    chars: spec_confirm_prompt(
                        prompt@,
                        confirm_yes@.map_values(|s: String| s@),
                        confirm_no@.map_values(|s: String| s@),
                    ),
                    style: plain_style(),
                },
            ],
            r.view_data.leading_lines@.len() == 0,
            r.view_data.trailing_lines@.len() == 0,
            r.view_data.wf(),
    {
        let mut message: String = String::from_str(prompt);
        message.append(" (");
        message.append(join(confirm_yes, ",").as_str());
        message.append("/");
        message.append(join(confirm_no, ",").as_str());
        message.append(")? ");
        proof {
            assert(message@ =~= spec_confirm_prompt(
                prompt@,
                confirm_yes@.map_values(|s: String| s@),
                confirm_no@.map_values(|s: String| s@),
            ));
        }
        let mut view_data = ViewData::new(String::from_str("confirm"));
        view_data.set_show_title(true);
        view_data.set_retain_scroll_position(false);
        view_data.push_line(ViewLine::from_text(message));
        Confirm { view_data }
    }

    /// The content this prompt wants displayed.
    pub fn get_view_data(&mut self) -> (r: &ViewData)
        ensures
            r == &final(self).view_data,
            *final(self) == *old(self),
    {
        &self.view_data
    }

    /// Translate a raw event for this prompt: a character key is tested in
    /// both letter cases against the yes chords and becomes yes on a match
    /// and no otherwise; every other event passes through unchanged.
    pub fn read_event(event: Event, key_bindings: &KeyBindings) -> (r: Event)
        ensures
            r == spec_read_event(event, *key_bindings),
    {
        if let Event::Key(key) = event {
            if let KeyCode::Char(c) = key.code {
                let event_lower = Event::Key(
                    KeyEvent::new(
                        KeyCode::Char(crate::event::to_ascii_lowercase(c)),
                        key.modifiers,
                    ),
                );
                let event_upper = Event::Key(
                    KeyEvent::new(
                        KeyCode::Char(crate::event::to_ascii_uppercase(c)),
                        key.modifiers,
                    ),
                );
                return if contains_event(&key_bindings.confirm_yes, event_lower) || contains_event(
                    &key_bindings.confirm_yes,
                    event_upper,
                ) {
                    Event::Standard(StandardEvent::Yes)
                } else {
                    Event::Standard(StandardEvent::No)
                };
            }
        }
        event
    }

    /// The outcome the given event means for this prompt.
    pub fn handle_event(&self, event: Event) -> (r: Confirmed)
        ensures
            r == spec_handle_event(event),
    {
        if let Event::Standard(standard_event) = event {
            match standard_event {
                StandardEvent::Yes => Confirmed::Yes,
                StandardEvent::No => Confirmed::No,
                _ => Confirmed::Other,
            }
        } else {
            Confirmed::Other
        }
    }
}

} // verus!
