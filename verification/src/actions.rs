//! The actions that a configuration gives to widgets.

use vstd::prelude::*;
use crate::droidpad;
use crate::droidpad::Kind;

verus! {

/// What a widget is configured to do.
///
/// A command may hold the token that stands for the event's value. A pad has
/// up to four commands, one for each arm, and an arm without one does
/// nothing. `startup` is run once for each connection, and what it prints
/// becomes the widget's first state.
#[derive(Clone, Debug, PartialEq)]
#[allow(inconsistent_fields)]
pub enum Action {
    Button { command: String },
    Slider { startup: Option<String>, command: String },
    Dpad { up: Option<String>, down: Option<String>, left: Option<String>, right: Option<String> },
    Switch { startup: Option<String>, command: String },
}

/// Why the output of a startup command gave no event.
#[derive(Clone, Copy, Debug, PartialEq, Eq, Structural)]
pub enum ConversionError {
    /// A slider's output was no number.
    ValueParse,
    /// Buttons and pads have no state to start with.
    Unsupported,
}

impl Action {
    /// The kind of widget that the action is for.
    pub open spec fn kind(&self) -> Kind {
        match self {
            Action::Button { .. } => Kind::Button,
            Action::Slider { .. } => Kind::Slider,
            Action::Dpad { .. } => Kind::Dpad,
            Action::Switch { .. } => Kind::Switch,
        }
    }

    /// The startup command of a slider or a switch that has one.
    pub open spec fn spec_startup_command(&self) -> Option<String> {
        match self {
            Action::Slider { startup, .. } => *startup,
            Action::Switch { startup, .. } => *startup,
            _ => None,
        }
    }

    /// The event that the output `value` of the startup command stands for,
    /// for the widget `id`. `number` is `value` read as a number: the decimal
    /// text of that number, or nothing where `value` is no number.
    pub open spec fn spec_to_droidpad_action(
        &self,
        id: String,
        value: Seq<char>,
        number: Option<String>,
    ) -> Result<droidpad::Action, ConversionError> {
        match self {
            Action::Slider { .. } => match number {
                Some(n) => Ok(droidpad::Action::Slider { id, value: n }),
                None => Err(ConversionError::ValueParse),
            },
            Action::Switch { .. } => Ok(droidpad::Action::Switch { id, state: value == "true"@ }),
            _ => Err(ConversionError::Unsupported),
        }
    }

    /// Turns the output of the startup command into the widget's first event.
    ///
    /// A slider takes `number`, which the caller has from reading `value` as
    /// a number, and fails where there is none. A switch is on exactly when
    /// `value` is the word `true`, and off on anything else. Buttons and pads
    /// always fail.
    pub fn to_droidpad_action(&self, id: &String, value: &String, number: Option<String>) -> (res:
        Result<droidpad::Action, ConversionError>)
        ensures
            res == self.spec_to_droidpad_action(*id, value@, number),
    {
        match self {
            Action::Slider { .. } => match number {
                Some(n) => Ok(droidpad::Action::Slider { id: id.clone(), value: n }),
                None => Err(ConversionError::ValueParse),
            },
            Action::Switch { .. } => {
                let on: String = "true".to_owned();
                let state: bool = *value == on;
                Ok(droidpad::Action::Switch { id: id.clone(), state })
            },
            _ => Err(ConversionError::Unsupported),
        }
    }

    /// Whether the action and the event are of the same kind. What the event
    /// carries plays no part.
    pub fn matches(&self, other: &droidpad::Action) -> (res: bool)
        ensures
            res == (self.kind() == other.kind()),
    {
        match (self, other) {
            (Action::Button { .. }, droidpad::Action::Button { .. }) => true,
            (Action::Dpad { .. }, droidpad::Action::Dpad { .. }) => true,
            (Action::Switch { .. }, droidpad::Action::Switch { .. }) => true,
            (Action::Slider { .. }, droidpad::Action::Slider { .. }) => true,
            _ => false,
        }
    }

    /// The command to run once for each connection, for a slider or a switch
    /// that has one.
    pub fn startup_command(&self) -> (res: Option<&String>)
        ensures
            match res {
                Some(c) => self.spec_startup_command() == Some(*c),
                None => self.spec_startup_command() is None,
            },
    {
        match self {
            Action::Slider { startup, .. } => startup.as_ref(),
            Action::Switch { startup, .. } => startup.as_ref(),
            _ => None,
        }
    }
}

} // verus!
