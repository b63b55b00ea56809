use droidpad_companion::actions::Action;
use droidpad_companion::config::ActionsConfig;
use droidpad_companion::connection::{Connection, Ending, Phase, Reaction};
use droidpad_companion::droidpad;
use droidpad_companion::droidpad::{ButtonState, Direction};

fn w(text: &str) -> String {
    text.to_string()
}

fn config() -> ActionsConfig {
    let mut config = ActionsConfig::new();
    config.insert(w("button_id"), Action::Button { command: w("notify-send hi") });
    config.insert(w("vol"), Action::Slider { startup: None, command: w("vol {}") });
    config.insert(w("pad"), Action::Dpad { up: None, down: Some(w("d")), left: None, right: None });
    config
}

fn looping() -> Connection {
    let mut connection = Connection::new();
    assert_eq!(connection.phase(), Phase::Connected);
    connection.begin_startup();
    assert_eq!(connection.phase(), Phase::StreamingStartup);
    connection.startup_finished();
    assert_eq!(connection.phase(), Phase::Looping);
    connection
}

fn button(state: ButtonState) -> droidpad::Action {
    droidpad::Action::Button { id: w("button_id"), state }
}

#[test]
fn release_runs_nothing() {
    let config = config();
    let mut connection = looping();
    let frame = w("{..}");
    let reaction = connection.receive(&config, Some(&frame), Some(button(ButtonState::Release)));
    assert_eq!(reaction, Reaction::Released);
    assert_eq!(connection.phase(), Phase::Looping);
}

#[test]
fn click_and_press_run_the_command() {
    let config = config();
    let mut connection = looping();
    let frame = w("{..}");
    for state in [ButtonState::Click, ButtonState::Press] {
        let reaction = connection.receive(&config, Some(&frame), Some(button(state)));
        assert_eq!(reaction, Reaction::Run(w("notify-send hi")));
    }
}

#[test]
fn release_of_an_unmapped_button_runs_nothing() {
    let config = config();
    let mut connection = looping();
    let frame = w("{..}");
    let event = droidpad::Action::Button { id: w("nobody"), state: ButtonState::Release };
    assert_eq!(connection.receive(&config, Some(&frame), Some(event)), Reaction::Released);
}

#[test]
fn empty_message_is_ignored() {
    let config = config();
    let mut connection = looping();
    let frame = w("");
    assert_eq!(connection.receive(&config, Some(&frame), None), Reaction::Empty);
    assert_eq!(
        connection.receive(&config, Some(&frame), Some(button(ButtonState::Click))),
        Reaction::Empty
    );
    assert_eq!(connection.phase(), Phase::Looping);
}

#[test]
fn payload_that_is_no_text_is_dropped() {
    let config = config();
    let mut connection = looping();
    assert_eq!(connection.receive(&config, None, None), Reaction::Unreadable);
    assert_eq!(connection.phase(), Phase::Looping);
}

#[test]
fn malformed_message_keeps_the_connection() {
    let config = config();
    let mut connection = looping();
    let unknown_tag = w("{\"type\":\"KNOB\",\"id\":\"vol\"}");
    assert_eq!(connection.receive(&config, Some(&unknown_tag), None), Reaction::Invalid);
    assert_eq!(connection.phase(), Phase::Looping);
    let empty_id = w("{\"type\":\"SWITCH\",\"id\":\"\",\"state\":true}");
    let event = droidpad::Action::Switch { id: w(""), state: true };
    assert_eq!(connection.receive(&config, Some(&empty_id), Some(event)), Reaction::Invalid);
    assert_eq!(connection.phase(), Phase::Looping);
    let valid = w("{\"type\":\"SLIDER\",\"id\":\"vol\",\"value\":0.5}");
    let event = droidpad::Action::Slider { id: w("vol"), value: w("0.5") };
    assert_eq!(connection.receive(&config, Some(&valid), Some(event)), Reaction::Run(w("vol 0.5")));
    assert_eq!(connection.phase(), Phase::Looping);
}

#[test]
fn mismatch_and_unmapped_are_told_apart() {
    let config = config();
    let mut connection = looping();
    let frame = w("{..}");
    let event = droidpad::Action::Slider { id: w("button_id"), value: w("0.5") };
    assert_eq!(connection.receive(&config, Some(&frame), Some(event)), Reaction::Mismatch);
    let event = droidpad::Action::Switch { id: w("nobody"), state: true };
    assert_eq!(connection.receive(&config, Some(&frame), Some(event)), Reaction::Unmapped);
    let event = droidpad::Action::Dpad { id: w("pad"), button: Direction::Up };
    assert_eq!(connection.receive(&config, Some(&frame), Some(event)), Reaction::Unmapped);
    let event = droidpad::Action::Dpad { id: w("pad"), button: Direction::Down };
    assert_eq!(connection.receive(&config, Some(&frame), Some(event)), Reaction::Run(w("d")));
    assert_eq!(connection.phase(), Phase::Looping);
}

#[test]
fn closing_by_the_peer_is_the_expected_end() {
    let mut connection = looping();
    assert_eq!(connection.fail(true), Ending::Disconnected);
    assert_eq!(connection.phase(), Phase::Closed);
}

#[test]
fn any_other_error_is_a_failure() {
    let mut connection = looping();
    assert_eq!(connection.fail(false), Ending::Failed);
    assert_eq!(connection.phase(), Phase::Closed);
}

#[test]
fn failed_send_during_startup_ends_the_connection() {
    let mut connection = Connection::new();
    connection.begin_startup();
    assert_eq!(connection.fail(false), Ending::Failed);
    assert_eq!(connection.phase(), Phase::Closed);
}
