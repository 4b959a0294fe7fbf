use rebase_tui::confirm::{Confirm, Confirmed};
use rebase_tui::event::{Event, KeyCode, KeyEvent, KeyModifiers, StandardEvent};
use rebase_tui::key_bindings::{translate, KeyBindings};
use rebase_tui::module::{apply_directive, ProcessResult, State};

fn bindings_with_yes_no() -> KeyBindings {
    KeyBindings::new(
        vec![Event::from_char('y'), Event::from_char('Z')],
        vec![Event::from_char('n')],
        vec![Event::from_char('?')],
        vec![Event::from_char('q')],
        Vec::new(),
        Vec::new(),
    )
}

#[test]
fn translate_yes_binding_lower_case_arrives() {
    let bindings = bindings_with_yes_no();
    assert_eq!(
        translate(Event::from_char('y'), &bindings),
        Event::Standard(StandardEvent::Yes)
    );
}

#[test]
fn translate_yes_binding_upper_case_arrives() {
    // 'Y' is not bound, but its lower-case form is
    let bindings = bindings_with_yes_no();
    assert_eq!(
        translate(Event::from_char('Y'), &bindings),
        Event::Standard(StandardEvent::Yes)
    );
}

#[test]
fn translate_yes_binding_bound_upper_case() {
    // 'Z' is bound in upper case; 'z' must still match it
    let bindings = bindings_with_yes_no();
    assert_eq!(
        translate(Event::from_char('z'), &bindings),
        Event::Standard(StandardEvent::Yes)
    );
    assert_eq!(
        translate(Event::from_char('Z'), &bindings),
        Event::Standard(StandardEvent::Yes)
    );
}

#[test]
fn translate_no_binding() {
    let bindings = bindings_with_yes_no();
    assert_eq!(
        translate(Event::from_char('n'), &bindings),
        Event::Standard(StandardEvent::No)
    );
}

#[test]
fn translate_unbound_character_passes_through() {
    let bindings = bindings_with_yes_no();
    let event = Event::from_char('x');
    assert_eq!(translate(event, &bindings), event);
}

#[test]
fn translate_modifiers_attach_per_case() {
    // only control-y is bound; a plain 'y' must not match it
    let control = KeyModifiers { shift: false, control: true, alt: false };
    let bound = Event::Key(KeyEvent::new(KeyCode::Char('y'), control));
    let bindings = KeyBindings::new(
        vec![bound],
        Vec::new(),
        Vec::new(),
        Vec::new(),
        Vec::new(),
        Vec::new(),
    );
    assert_eq!(translate(bound, &bindings), Event::Standard(StandardEvent::Yes));
    assert_eq!(translate(Event::from_char('y'), &bindings), Event::from_char('y'));
}

#[test]
fn translate_non_key_events_pass_through() {
    let bindings = bindings_with_yes_no();
    assert_eq!(translate(Event::Resize(3, 4), &bindings), Event::Resize(3, 4));
    assert_eq!(translate(Event::Other, &bindings), Event::Other);
}

#[test]
fn confirm_read_event_yes() {
    let bindings = bindings_with_yes_no();
    assert_eq!(
        Confirm::read_event(Event::from_char('y'), &bindings),
        Event::Standard(StandardEvent::Yes)
    );
    assert_eq!(
        Confirm::read_event(Event::from_char('Y'), &bindings),
        Event::Standard(StandardEvent::Yes)
    );
}

#[test]
fn confirm_read_event_unbound_character_defaults_to_no() {
    // the deliberate fallback: an unbound character key means "no"
    let bindings = bindings_with_yes_no();
    assert_eq!(
        Confirm::read_event(Event::from_char('x'), &bindings),
        Event::Standard(StandardEvent::No)
    );
    assert_eq!(
        Confirm::read_event(Event::from_char('n'), &bindings),
        Event::Standard(StandardEvent::No)
    );
}

#[test]
fn confirm_read_event_non_character_passes_through() {
    let bindings = bindings_with_yes_no();
    let esc = Event::Key(KeyEvent::new(KeyCode::Esc, KeyModifiers::none()));
    assert_eq!(Confirm::read_event(esc, &bindings), esc);
    assert_eq!(Confirm::read_event(Event::Resize(1, 2), &bindings), Event::Resize(1, 2));
}

#[test]
fn confirm_handle_event_outcomes() {
    let confirm = Confirm::new("Abort", &[String::from("y")], &[String::from("n")]);
    assert_eq!(confirm.handle_event(Event::Standard(StandardEvent::Yes)), Confirmed::Yes);
    assert_eq!(confirm.handle_event(Event::Standard(StandardEvent::No)), Confirmed::No);
    assert_eq!(
        confirm.handle_event(Event::Standard(StandardEvent::Help)),
        Confirmed::Other
    );
    assert_eq!(confirm.handle_event(Event::from_char('y')), Confirmed::Other);
}

#[test]
fn confirm_prompt_line() {
    let mut confirm = Confirm::new(
        "Abort",
        &[String::from("y"), String::from("Z")],
        &[String::from("n")],
    );
    let view_data = confirm.get_view_data();
    assert!(view_data.show_title);
    assert!(!view_data.retain_scroll_position);
    assert_eq!(view_data.lines.count(), 1);
    let line = view_data.lines.get(0);
    assert_eq!(line.get_segments().len(), 1);
    assert_eq!(line.get_segments()[0].get_content(), "Abort (y,Z/n)? ");
}

#[test]
fn dispatch_applies_requested_state() {
    let result = ProcessResult::from_event(Event::from_char('e')).state(State::Insert);
    let dispatch = apply_directive(State::List, &result);
    assert_eq!(dispatch.active, State::Insert);
    assert!(dispatch.activation_pending);
    assert!(!dispatch.exit);
}

#[test]
fn dispatch_keeps_active_state_without_request() {
    let result = ProcessResult::new();
    let dispatch = apply_directive(State::List, &result);
    assert_eq!(dispatch.active, State::List);
    assert!(!dispatch.activation_pending);
    assert!(!dispatch.exit);
}

#[test]
fn dispatch_exit_signal_passes_through() {
    let result = ProcessResult::new().exit();
    let dispatch = apply_directive(State::ConfirmAbort, &result);
    assert_eq!(dispatch.active, State::ConfirmAbort);
    assert!(dispatch.exit);
}
