//! The configuration: which action each widget has, and what follows from it
//! for an event and for a fresh connection.

use vstd::prelude::*;
use crate::actions::Action;
use crate::droidpad;
use crate::droidpad::Direction;
use crate::template::{fill, has_token, lemma_substitute_without_token, substitute};

verus! {

/// What the program is started with.
pub struct Arguments {
    /// The address on which connections are accepted.
    pub address: String,
    /// The path of the configuration file.
    pub config: String,
}

impl Default for Arguments {
    /// The values used where the command line gives none.
    fn default() -> (res: Self)
        ensures
            res.address@ == "0.0.0.0:9123"@,
            res.config@ == "~/.config/droidpad-companion.yaml"@,
    {
        Arguments {
            address: "0.0.0.0:9123".to_owned(),
            config: "~/.config/droidpad-companion.yaml".to_owned(),
        }
    }
}

/// One widget of the configuration with its action.
#[derive(Clone, Debug, PartialEq)]
pub struct Entry {
    pub id: String,
    pub action: Action,
}

/// The actions of all configured widgets, each widget once.
///
/// The model is a map from a widget's identifier, as a sequence of
/// characters, to its action. The entries are also kept in a row, in the
/// order in which their identifiers first came in; that order decides nothing
/// but the order of the startup commands.
pub struct ActionsConfig {
    entries: Vec<Entry>,
}

/// The command that a pad's action holds for the arm `direction`, if the
/// action is a pad's and that arm has one.
pub open spec fn spec_arm_command(action: Action, direction: Direction) -> Option<String> {
    match action {
        Action::Dpad { up, down, left, right } => match direction {
            Direction::Up => up,
            Direction::Left => left,
            Direction::Right => right,
            Direction::Down => down,
        },
        _ => None,
    }
}

/// The command that `action` holds for `event`, before any value is put in.
/// A pad has one for the arm that the event names, if that arm has any.
pub open spec fn spec_raw_command(action: Action, event: droidpad::Action) -> Option<String> {
    match action {
        Action::Button { command } => Some(command),
        Action::Slider { command, .. } => Some(command),
        Action::Switch { command, .. } => Some(command),
        Action::Dpad { .. } => match event.spec_direction() {
            Some(direction) => spec_arm_command(action, direction),
            None => None,
        },
    }
}

/// The first index from `from` on whose entry has a startup command, or the
/// length of `entries` where there is none.
pub open spec fn next_startup_index(entries: Seq<Entry>, from: int) -> int
    decreases entries.len() - from,
{
    if from < 0 || from >= entries.len() {
        entries.len() as int
    } else if entries[from].action.spec_startup_command() is Some {
        from
    } else {
        next_startup_index(entries, from + 1)
    }
}

impl ActionsConfig {
    /// The entries in their row.
    pub closed spec fn entries(&self) -> Seq<Entry> {
        self.entries@
    }

    /// The identifier of the entry at `i`.
    pub open spec fn id_at(&self, i: int) -> Seq<char> {
        self.entries()[i].id@
    }

    /// No identifier occurs twice.
    pub open spec fn wf(&self) -> bool {
        forall|i: int, j: int|
            0 <= i < j < self.entries().len() ==> #[trigger] self.id_at(i) != #[trigger] self.id_at(j)
    }

    /// Whether some entry has the identifier `id`.
    pub open spec fn holds(&self, id: Seq<char>) -> bool {
        exists|i: int| 0 <= i < self.entries().len() && #[trigger] self.id_at(i) == id
    }

    /// The place of the entry with the identifier `id`.
    pub open spec fn index_of(&self, id: Seq<char>) -> int {
        choose|i: int| 0 <= i < self.entries().len() && #[trigger] self.id_at(i) == id
    }

    /// The configuration as a map from identifiers to actions.
    pub open spec fn view(&self) -> Map<Seq<char>, Action> {
        Map::new(
            |id: Seq<char>| self.holds(id),
            |id: Seq<char>| self.entries()[self.index_of(id)].action,
        )
    }

    /// The entry at `i` is what the map holds under its identifier.
    pub proof fn lemma_entry_in_view(&self, i: int)
        requires
            self.wf(),
            0 <= i < self.entries().len(),
        ensures
            self@.contains_key(self.id_at(i)),
            self@[self.id_at(i)] == self.entries()[i].action,
            self.index_of(self.id_at(i)) == i,
    {
        let id = self.id_at(i);
        assert(self.holds(id));
        let k = self.index_of(id);
        assert(0 <= k < self.entries().len() && self.id_at(k) == id);
        if k < i {
            assert(self.id_at(k) != self.id_at(i));
        }
        if i < k {
            assert(self.id_at(i) != self.id_at(k));
        }
    }

    /// The command that `event` stands for: that of the action configured
    /// for the event's widget, if there is one and it is of the event's kind,
    /// with a slider's value in place of each token.
    pub open spec fn spec_command_for(&self, event: droidpad::Action) -> Option<Seq<char>> {
        let id = event.spec_id()@;
        if !self@.contains_key(id) {
            None
        } else if self@[id].kind() != event.kind() {
            None
        } else {
            match spec_raw_command(self@[id], event) {
                None => None,
                Some(raw) => match event.spec_value() {
                    Some(v) => Some(substitute(raw@, v@)),
                    None => Some(raw@),
                },
            }
        }
    }

    /// A pad's event is answered by the command of the arm that it names
    /// and by no other: where that arm has no command there is none,
    /// whatever the other arms have.
    pub proof fn lemma_dpad_routing(&self, id: String, direction: Direction)
        requires
            self.wf(),
            self@.contains_key(id@),
            self@[id@] is Dpad,
        ensures
            self.spec_command_for(droidpad::Action::Dpad { id, button: direction }) == (
            match spec_arm_command(self@[id@], direction) {
                Some(command) => Some(command@),
                None => None,
            }),
    {
    }

    /// A slider's value goes nowhere in a command that has no token: the
    /// command comes out as it is configured.
    pub proof fn lemma_slider_without_token(&self, id: String, value: String)
        requires
            self.wf(),
            self@.contains_key(id@),
            self@[id@] is Slider,
            !has_token(self@[id@]->Slider_command@),
        ensures
            self.spec_command_for(droidpad::Action::Slider { id, value }) == Some(
                self@[id@]->Slider_command@,
            ),
    {
        lemma_substitute_without_token(self@[id@]->Slider_command@, value@);
    }

    /// A configuration without widgets.
    pub fn new() -> (res: Self)
        ensures
            res.wf(),
            res@ == Map::<Seq<char>, Action>::empty(),
            res.entries().len() == 0,
    {
        let res = ActionsConfig { entries: Vec::new() };
        proof {
            assert(res@ =~= Map::<Seq<char>, Action>::empty());
        }
        res
    }

    /// Gives the widget `id` the action `action`. A widget that had one keeps
    /// its place in the row; a new one goes to the end.
    pub fn insert(&mut self, id: String, action: Action)
        requires
            old(self).wf(),
        ensures
            final(self).wf(),
            final(self)@ == old(self)@.insert(id@, action),
            final(self).entries() == if old(self).holds(id@) {
                old(self).entries().update(old(self).index_of(id@), (Entry { id, action }))
            } else {
                old(self).entries().push((Entry { id, action }))
            },
    {
        let n: usize = self.entries.len();
        let mut i: usize = 0;
        while i < n
            invariant
                i <= n,
                n == self.entries@.len(),
                *self == *old(self),
                old(self).wf(),
                forall|j: int| 0 <= j < i ==> #[trigger] self.id_at(j) != id@,
            decreases n - i,
        {
            if self.entries[i].id == id {
                let ghost key = id@;
                proof {
                    assert(self.id_at(i as int) == key);
                }
                self.entries.set(i, Entry { id, action });
                proof {
                    let before = *old(self);
                    let after = *self;
                    assert(after.wf()) by {
                        assert forall|a: int, b: int| 0 <= a < b < after.entries().len() implies #[trigger] after.id_at(a) != #[trigger] after.id_at(b) by {
                            assert(before.id_at(a) != before.id_at(b));
                        }
                    }
                    assert forall|k: Seq<char>| before.holds(k) == after.holds(k) by {
                        if before.holds(k) {
                            let w = before.index_of(k);
                            assert(after.id_at(w) == k);
                        }
                        if after.holds(k) {
                            let w = after.index_of(k);
                            assert(before.id_at(w) == k);
                        }
                    }
                    assert(before.holds(key));
                    before.lemma_entry_in_view(i as int);
                    assert forall|k: Seq<char>| after.holds(k) implies after@[k] == before@.insert(key, action)[k] by {
                        let w = after.index_of(k);
                        after.lemma_entry_in_view(w);
                        before.lemma_entry_in_view(w);
                        after.lemma_entry_in_view(i as int);
                    }
                    assert(after@ =~= before@.insert(key, action));
                }
                return ;
            }
            i = i + 1;
        }
        let ghost key = id@;
        self.entries.push(Entry { id, action });
        proof {
            let before = *old(self);
            let after = *self;
            assert(after.id_at(n as int) == key);
            assert(after.wf()) by {
                assert forall|a: int, b: int| 0 <= a < b < after.entries().len() implies #[trigger] after.id_at(a) != #[trigger] after.id_at(b) by {
                    if b < n {
                        assert(before.id_at(a) != before.id_at(b));
                    } else {
                        assert(before.id_at(a) != key);
                    }
                }
            }
            assert forall|k: Seq<char>| after.holds(k) == (before.holds(k) || k == key) by {
                if before.holds(k) {
                    let w = before.index_of(k);
                    assert(after.id_at(w) == k);
                }
                if after.holds(k) {
                    let w = after.index_of(k);
                    if w < n {
                        assert(before.id_at(w) == k);
                    }
                }
            }
            assert forall|k: Seq<char>| after.holds(k) implies after@[k] == before@.insert(key, action)[k] by {
                let w = after.index_of(k);
                after.lemma_entry_in_view(w);
                if w < n {
                    before.lemma_entry_in_view(w);
                }
            }
            assert(after@ =~= before@.insert(key, action));
        }
    }

    /// The entries, each widget once.
    pub fn actions(&self) -> (res: &Vec<Entry>)
        ensures
            res@ == self.entries(),
    {
        &self.entries
    }

    /// The action of the widget `id`, if it has one.
    pub fn get(&self, id: &String) -> (res: Option<&Action>)
        requires
            self.wf(),
        ensures
            match res {
                Some(a) => self@.contains_key(id@) && self@[id@] == *a,
                None => !self@.contains_key(id@),
            },
    {
        let n: usize = self.entries.len();
        let mut i: usize = 0;
        while i < n
            invariant
                i <= n,
                n == self.entries().len(),
                self.wf(),
                forall|j: int| 0 <= j < i ==> #[trigger] self.id_at(j) != id@,
            decreases n - i,
        {
            if self.entries[i].id == *id {
                proof {
                    self.lemma_entry_in_view(i as int);
                }
                return Some(&self.entries[i].action);
            }
            i = i + 1;
        }
        None
    }

    /// The action for the widget of `event`, where it is of the event's kind.
    fn config_action(&self, droidpad_action: &droidpad::Action) -> (res: Option<&Action>)
        requires
            self.wf(),
        ensures
            match res {
                Some(a) => {
                    &&& self@.contains_key(droidpad_action.spec_id()@)
                    &&& self@[droidpad_action.spec_id()@] == *a
                    &&& a.kind() == droidpad_action.kind()
                },
                None => {
                    ||| !self@.contains_key(droidpad_action.spec_id()@)
                    ||| self@[droidpad_action.spec_id()@].kind() != droidpad_action.kind()
                },
            },
    {
        if let Some(action) = self.get(droidpad_action.id()) {
            if !action.matches(droidpad_action) {
                return None;
            }
            return Some(action);
        }
        None
    }

    /// The command for `event` as it is configured, the token still in it.
    fn raw_command_for(&self, droidpad_action: &droidpad::Action) -> (res: Option<&String>)
        requires
            self.wf(),
        ensures
            res is Some <==> self.spec_command_for(*droidpad_action) is Some,
            match res {
                Some(raw) => spec_raw_command(
                    self@[droidpad_action.spec_id()@],
                    *droidpad_action,
                ) == Some(*raw),
                None => true,
            },
    {
        if let Some(action) = self.config_action(droidpad_action) {
            return match action {
                Action::Button { command } => Some(command),
                Action::Dpad { up, down, left, right } => {
                    match droidpad_action.direction() {
                        None => None,
                        Some(direction) => match direction {
                            Direction::Up => up.as_ref(),
                            Direction::Left => left.as_ref(),
                            Direction::Right => right.as_ref(),
                            Direction::Down => down.as_ref(),
                        },
                    }
                },
                Action::Slider { command, .. } => Some(command),
                Action::Switch { command, .. } => Some(command),
            };
        }
        None
    }

    /// The command that `event` stands for, ready to run.
    ///
    /// There is none where the event's widget is not configured, where its
    /// action is of another kind than the event, and where the event names an
    /// arm of a pad that has no command. A slider's value takes the place of
    /// each token in the command; the other kinds leave the command as it is.
    pub fn command_for(&self, droidpad_action: &droidpad::Action) -> (res: Option<String>)
        requires
            self.wf(),
        ensures
            match res {
                Some(command) => self.spec_command_for(*droidpad_action) == Some(command@),
                None => self.spec_command_for(*droidpad_action) is None,
            },
            !self@.contains_key(droidpad_action.spec_id()@) ==> res is None,
            self@.contains_key(droidpad_action.spec_id()@) && self@[droidpad_action.spec_id()@].kind()
                != droidpad_action.kind() ==> res is None,
    {
        let command = self.raw_command_for(droidpad_action);
        match command {
            None => None,
            Some(raw) => match droidpad_action.value() {
                Some(value) => Some(fill(raw.as_str(), value.as_str())),
                None => Some(raw.clone()),
            },
        }
    }

    /// The startup commands of this configuration, none of them taken yet.
    pub fn startup_actions(&self) -> (res: StartupActions<'_>)
        ensures
            res.config() == self,
            res.position() == 0,
    {
        StartupActions { config: self, position: 0 }
    }
}

/// A walk through the entries that have a startup command: each is handed
/// out once, in the order of the row, and the walk cannot be started again.
pub struct StartupActions<'a> {
    config: &'a ActionsConfig,
    position: usize,
}

impl<'a> StartupActions<'a> {
    /// The configuration that is walked through.
    pub closed spec fn config(&self) -> &ActionsConfig {
        self.config
    }

    /// How many entries the walk has passed.
    pub closed spec fn position(&self) -> int {
        self.position as int
    }

    /// The next entry that has a startup command, or nothing when the walk
    /// is over. Entries without one are passed over.
    pub fn next(&mut self) -> (res: Option<&'a Entry>)
        ensures
            final(self).config() == old(self).config(),
            ({
                let entries = old(self).config().entries();
                let k = next_startup_index(entries, old(self).position());
                if k < entries.len() {
                    res == Some(&entries[k]) && final(self).position() == k + 1
                } else {
                    res is None && final(self).position() >= entries.len()
                }
            }),
    {
        let n: usize = self.config.entries.len();
        while self.position < n
            invariant
                self.config == old(self).config,
                n == self.config.entries@.len(),
                old(self).position <= self.position,
                next_startup_index(self.config.entries@, old(self).position as int)
                    == next_startup_index(self.config.entries@, self.position as int),
            decreases n - self.position,
        {
            let entry = &self.config.entries[self.position];
            self.position = self.position + 1;
            if entry.action.startup_command().is_some() {
                return Some(entry);
            }
        }
        None
    }
}

/// The event that one startup command gives, or nothing where the entry is
/// passed over: `output` is what the command printed, or nothing where it
/// could not be run, and `number` is that output read as a number (its
/// decimal text), or nothing where it is no number.
pub fn startup_event(entry: &Entry, output: Option<&String>, number: Option<String>) -> (res: Option<
    droidpad::Action,
>)
    ensures
        res == match output {
            None => None,
            Some(text) => match entry.action.spec_to_droidpad_action(entry.id, text@, number) {
                Ok(event) => Some(event),
                Err(_) => None,
            },
        },
{
    match output {
        None => None,
        Some(text) => match entry.action.to_droidpad_action(&entry.id, text, number) {
            Ok(event) => Some(event),
            Err(_) => None,
        },
    }
}

} // verus!
