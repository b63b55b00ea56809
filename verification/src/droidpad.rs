//! The events that the remote client and this side exchange.

use vstd::prelude::*;

verus! {

/// The phase of a press that a button event reports.
#[derive(Clone, Copy, Debug, PartialEq, Eq, Structural)]
pub enum ButtonState {
    Click,
    Release,
    Press,
}

/// The arm of a directional pad that an event reports.
#[derive(Clone, Copy, Debug, PartialEq, Eq, Structural)]
pub enum Direction {
    Up,
    Left,
    Right,
    Down,
}

/// The four kinds of widget. Events and configured actions both have one.
#[derive(Clone, Copy, Debug, PartialEq, Eq, Structural)]
pub enum Kind {
    Switch,
    Button,
    Dpad,
    Slider,
}

/// One event of a widget.
///
/// A slider's position is a floating-point number on the wire. Here it is
/// held as `value`, the decimal text of that number, which is all that the
/// resolution of a command reads of it.
#[derive(Clone, Debug, PartialEq)]
#[allow(inconsistent_fields)]
pub enum Action {
    Switch { id: String, state: bool },
    Button { id: String, state: ButtonState },
    Dpad { id: String, button: Direction },
    Slider { id: String, value: String },
}

impl Action {
    /// The kind of widget that the event comes from.
    pub open spec fn kind(&self) -> Kind {
        match self {
            Action::Switch { .. } => Kind::Switch,
            Action::Button { .. } => Kind::Button,
            Action::Dpad { .. } => Kind::Dpad,
            Action::Slider { .. } => Kind::Slider,
        }
    }

    /// The identifier of the widget, as a value of specifications.
    pub open spec fn spec_id(&self) -> String {
        match self {
            Action::Switch { id, .. } => *id,
            Action::Button { id, .. } => *id,
            Action::Dpad { id, .. } => *id,
            Action::Slider { id, .. } => *id,
        }
    }

    /// The arm that a pad event reports; nothing for the other kinds.
    pub open spec fn spec_direction(&self) -> Option<Direction> {
        match self {
            Action::Dpad { button, .. } => Some(*button),
            _ => None,
        }
    }

    /// The text of a slider's position; nothing for the other kinds.
    pub open spec fn spec_value(&self) -> Option<String> {
        match self {
            Action::Slider { value, .. } => Some(*value),
            _ => None,
        }
    }

    /// The phase that a button event reports; nothing for the other kinds.
    pub open spec fn spec_button_state(&self) -> Option<ButtonState> {
        match self {
            Action::Button { state, .. } => Some(*state),
            _ => None,
        }
    }

    /// An event is valid where its identifier is not empty.
    pub open spec fn wf(&self) -> bool {
        self.spec_id()@.len() > 0
    }

    /// Whether the event is valid: its identifier is not empty.
    pub fn is_valid(&self) -> (res: bool)
        ensures
            res == self.wf(),
    {
        !self.id().as_str().is_empty()
    }

    /// The identifier of the widget.
    pub fn id(&self) -> (res: &String)
        ensures
            *res == self.spec_id(),
    {
        match self {
            Action::Switch { id, .. } => id,
            Action::Button { id, .. } => id,
            Action::Dpad { id, .. } => id,
            Action::Slider { id, .. } => id,
        }
    }

    /// The arm of the pad, for a pad event only.
    pub fn direction(&self) -> (res: Option<&Direction>)
        ensures
            res is Some <==> self.kind() == Kind::Dpad,
            match res {
                Some(d) => self.spec_direction() == Some(*d),
                None => self.spec_direction() is None,
            },
    {
        match self {
            Action::Dpad { button, .. } => Some(button),
            _ => None,
        }
    }

    /// The text of the slider's position, for a slider event only.
    pub fn value(&self) -> (res: Option<&String>)
        ensures
            res is Some <==> self.kind() == Kind::Slider,
            match res {
                Some(v) => self.spec_value() == Some(*v),
                None => self.spec_value() is None,
            },
    {
        match self {
            Action::Slider { value, .. } => Some(value),
            _ => None,
        }
    }

    /// The phase of the press, for a button event only.
    pub fn button_state(&self) -> (res: Option<&ButtonState>)
        ensures
            res is Some <==> self.kind() == Kind::Button,
            match res {
                Some(s) => self.spec_button_state() == Some(*s),
                None => self.spec_button_state() is None,
            },
    {
        match self {
            Action::Button { state, .. } => Some(state),
            _ => None,
        }
    }
}

} // verus!
