//! The modal controller: it reads key presses against the note store and a
//! line of text that is being typed.
//!
//! The controller does not touch the screen, the keyboard or the file system.
//! The caller hands it each key press and does what the answer asks for. Where
//! the answer is [`Action::Save`], the caller writes the notes and reports
//! with [`App::complete_save`] how the writing went; only then does the step
//! end: after a write that failed nothing has changed.

use crate::config::Config;
use crate::note::{Note, NoteView};
use crate::store::{NotesManager, StoreError, ManagerView};
use crate::text::{blank, is_blank};
use crate::time::Timestamp;
use vstd::prelude::*;

verus! {

/// What the keys mean at the moment.
#[derive(Debug, Clone, Copy, PartialEq, Eq, Structural)]
pub enum AppMode {
    /// Browsing the list.
    Normal,
    /// Typing a note.
    Insert,
    /// Typing a search.
    Search,
    /// Typing one quick note, after which the tool ends.
    Widget,
}

/// A key press.
#[derive(Debug, Clone, Copy, PartialEq, Eq, Structural)]
pub enum Key {
    /// A character key.
    Char(char),
    /// The arrow up.
    Up,
    /// The arrow down.
    Down,
    /// The enter key.
    Enter,
    /// The escape key.
    Esc,
    /// The backspace key.
    Backspace,
    /// The delete key.
    Delete,
    /// Any other key.
    Other,
}

/// What the caller has to do after a key press.
#[derive(Debug, Clone, Copy, PartialEq, Eq, Structural)]
pub enum Action {
    /// Nothing.
    Nothing,
    /// Write the notes of the store to storage, then tell the controller with
    /// [`App::complete_save`] how the writing went.
    Save,
    /// Set the screen up for the widget.
    OpenWidget,
}

/// The selection brought back into a list of `len` notes: none in an empty
/// list, else the last note where it stood beyond it.
pub open spec fn clamped(selected: Option<usize>, len: nat) -> Option<usize> {
    match selected {
        Some(i) => if len == 0 {
            None
        } else if i >= len {
            Some((len - 1) as usize)
        } else {
            Some(i)
        },
        None => None,
    }
}

/// What the controller is, as mathematics.
pub struct AppView {
    /// The note store.
    pub store: ManagerView,
    /// The mode.
    pub mode: AppMode,
    /// The text that is being typed.
    pub input: Seq<char>,
    /// The place of the selected note, if one is selected.
    pub selected: Option<usize>,
    /// Whether the tool has been asked to end.
    pub should_quit: bool,
    /// Whether the tool was started as the widget.
    pub widget_mode: bool,
}

impl AppView {
    /// The store is well formed, and a selection names a note of the list as
    /// storage holds it; with no change waiting, that is the list.
    pub open spec fn wf(self) -> bool {
        &&& self.store.wf()
        &&& self.selected matches Some(i) ==> i < self.store.durable.len()
    }

    /// The controller at the start: nothing typed, nothing selected, in
    /// widget mode where the tool was started as the widget.
    pub open spec fn started(store: ManagerView, widget_mode: bool) -> AppView {
        AppView {
            store,
            mode: if widget_mode {
                AppMode::Widget
            } else {
                AppMode::Normal
            },
            input: Seq::empty(),
            selected: None,
            should_quit: false,
            widget_mode,
        }
    }

    /// The selection moved one note up; from no selection, to the last note.
    pub open spec fn select_previous(self) -> AppView {
        match self.selected {
            Some(i) => if i > 0 {
                AppView { selected: Some((i - 1) as usize), ..self }
            } else {
                self
            },
            None => if self.store.notes.len() > 0 {
                AppView { selected: Some((self.store.notes.len() - 1) as usize), ..self }
            } else {
                self
            },
        }
    }

    /// The selection moved one note down; from no selection, to the first
    /// note.
    pub open spec fn select_next(self) -> AppView {
        match self.selected {
            Some(i) => if i + 1 < self.store.notes.len() {
                AppView { selected: Some((i + 1) as usize), ..self }
            } else {
                self
            },
            None => if self.store.notes.len() > 0 {
                AppView { selected: Some(0), ..self }
            } else {
                self
            },
        }
    }

    /// The typed text with `c` at its end.
    pub open spec fn typed(self, c: char) -> AppView {
        AppView { input: self.input.push(c), ..self }
    }

    /// The typed text without its last character, if it has one.
    pub open spec fn erased(self) -> AppView {
        if self.input.len() > 0 {
            AppView { input: self.input.drop_last(), ..self }
        } else {
            self
        }
    }

    /// The store with a note of the typed text, made at `now`, put first.
    pub open spec fn committed(self, now: Timestamp) -> AppView {
        AppView { store: self.store.added(NoteView::created(self.input, now)), ..self }
    }

    /// Whether a key press makes a note: it commits typed text that is more
    /// than white space.
    pub open spec fn makes_note(self, key: Key) -> bool {
        &&& !self.store.unsaved
        &&& !is_blank(self.input)
        &&& (self.mode == AppMode::Insert && key == Key::Esc) || (self.mode == AppMode::Widget
            && key == Key::Enter)
    }

    /// A key press while browsing.
    pub open spec fn step_normal(self, key: Key) -> (AppView, Action) {
        match key {
            Key::Char(c) => if c == 'q' {
                (AppView { should_quit: true, ..self }, Action::Nothing)
            } else if c == 'n' {
                (AppView { mode: AppMode::Insert, input: Seq::empty(), ..self }, Action::Nothing)
            } else if c == 's' {
                (AppView { mode: AppMode::Search, input: Seq::empty(), ..self }, Action::Nothing)
            } else if c == 'w' {
                (AppView { mode: AppMode::Widget, ..self }, Action::OpenWidget)
            } else {
                (self, Action::Nothing)
            },
            Key::Up => (self.select_previous(), Action::Nothing),
            Key::Down => (self.select_next(), Action::Nothing),
            Key::Enter => match self.selected {
                Some(i) => if i < self.store.notes.len() {
                    (
                        AppView {
                            mode: AppMode::Insert,
                            input: self.store.notes[i as int].content,
                            ..self
                        },
                        Action::Nothing,
                    )
                } else {
                    (self, Action::Nothing)
                },
                None => (self, Action::Nothing),
            },
            Key::Delete => match self.selected {
                Some(i) => if i < self.store.notes.len() {
                    (AppView { store: self.store.deleted(i as int), ..self }, Action::Save)
                } else {
                    (self, Action::Nothing)
                },
                None => (self, Action::Nothing),
            },
            _ => (self, Action::Nothing),
        }
    }

    /// A key press while a note is typed. Escape commits: typed text that is
    /// more than white space becomes a note that waits to be saved; other
    /// text is dropped.
    pub open spec fn step_insert(self, key: Key, now: Timestamp) -> (AppView, Action) {
        match key {
            Key::Esc => if is_blank(self.input) {
                (AppView { mode: AppMode::Normal, input: Seq::empty(), ..self }, Action::Nothing)
            } else {
                (self.committed(now), Action::Save)
            },
            Key::Backspace => (self.erased(), Action::Nothing),
            Key::Char(c) => (self.typed(c), Action::Nothing),
            _ => (self, Action::Nothing),
        }
    }

    /// A key press while a search is typed.
    pub open spec fn step_search(self, key: Key) -> (AppView, Action) {
        match key {
            Key::Esc => (
                AppView { mode: AppMode::Normal, input: Seq::empty(), ..self },
                Action::Nothing,
            ),
            Key::Enter => (AppView { mode: AppMode::Normal, ..self }, Action::Nothing),
            Key::Backspace => (self.erased(), Action::Nothing),
            Key::Char(c) => (self.typed(c), Action::Nothing),
            _ => (self, Action::Nothing),
        }
    }

    /// A key press in the widget. Enter commits typed text that is more than
    /// white space; escape ends the tool.
    pub open spec fn step_widget(self, key: Key, now: Timestamp) -> (AppView, Action) {
        match key {
            Key::Esc => (AppView { should_quit: true, ..self }, Action::Nothing),
            Key::Enter => if is_blank(self.input) {
                (self, Action::Nothing)
            } else {
                (self.committed(now), Action::Save)
            },
            Key::Backspace => (self.erased(), Action::Nothing),
            Key::Char(c) => (self.typed(c), Action::Nothing),
            _ => (self, Action::Nothing),
        }
    }

    /// A key press at the instant `now`. While a change waits to be saved no
    /// key is taken: the answer is to save.
    pub open spec fn step(self, key: Key, now: Timestamp) -> (AppView, Action) {
        if self.store.unsaved {
            (self, Action::Save)
        } else {
            match self.mode {
                AppMode::Normal => self.step_normal(key),
                AppMode::Insert => self.step_insert(key, now),
                AppMode::Search => self.step_search(key),
                AppMode::Widget => self.step_widget(key, now),
            }
        }
    }

    /// The controller after the caller wrote the list, or failed to. After a
    /// write that succeeded the step that asked for it ends: the typed note
    /// is cleared away and the mode left (in the widget, the tool ends), and
    /// the selection is brought back into the list. After a write that failed
    /// the store goes back to what storage holds, and nothing else changes.
    pub open spec fn settled(self, written: bool) -> AppView {
        let store = self.store.settled(written);
        if !written || !self.store.unsaved {
            AppView { store, ..self }
        } else {
            let selected = clamped(self.selected, store.notes.len());
            match self.mode {
                AppMode::Insert => AppView {
                    store,
                    selected,
                    mode: AppMode::Normal,
                    input: Seq::empty(),
                    ..self
                },
                AppMode::Widget => AppView {
                    store,
                    selected,
                    input: Seq::empty(),
                    should_quit: true,
                    ..self
                },
                _ => AppView { store, selected, ..self },
            }
        }
    }
}

/// A key press leaves a selection that names a note, or none: no key press
/// takes a well-formed controller to one that is not.
pub proof fn lemma_step_keeps_selection(app: AppView, key: Key, now: Timestamp)
    requires
        app.wf(),
    ensures
        app.step(key, now).0.wf(),
        !app.store.unsaved && app.step(key, now).1 != Action::Save ==> (app.step(
            key,
            now,
        ).0.selected matches Some(i) ==> i < app.step(key, now).0.store.notes.len()),
{
}

/// The end of a save, good or bad, leaves a selection that names a note of
/// the list, or none.
pub proof fn lemma_settled_keeps_selection(app: AppView, written: bool)
    requires
        app.wf(),
    ensures
        app.settled(written).wf(),
        !app.settled(written).store.unsaved,
        app.settled(written).selected matches Some(i) ==> i < app.settled(
            written,
        ).store.notes.len(),
{
}

/// Deleting the selected note, once the list is written, leaves no selection
/// where the list is empty, and else a selection within the list: the same
/// place, or the last note where the last one was deleted.
pub proof fn lemma_delete_selected(app: AppView, now: Timestamp)
    requires
        app.wf(),
        !app.store.unsaved,
        app.mode == AppMode::Normal,
        app.selected is Some,
    ensures
        app.step(Key::Delete, now).1 == Action::Save,
        ({
            let after = app.step(Key::Delete, now).0.settled(true);
            let at = app.selected->0;
            &&& after.store.notes == app.store.notes.remove(at as int)
            &&& after.store.notes.len() == 0 ==> after.selected is None
            &&& after.store.notes.len() > 0 ==> after.selected == Some(
                if at < after.store.notes.len() {
                    at
                } else {
                    (after.store.notes.len() - 1) as usize
                },
            )
        }),
{
}

/// Committing typed text that is white space only adds no note and leads
/// back to browsing, with nothing to save.
pub proof fn lemma_blank_commit_adds_nothing(app: AppView, now: Timestamp)
    requires
        !app.store.unsaved,
        app.mode == AppMode::Insert,
        is_blank(app.input),
    ensures
        app.step(Key::Esc, now).1 == Action::Nothing,
        app.step(Key::Esc, now).0.store == app.store,
        app.step(Key::Esc, now).0.mode == AppMode::Normal,
        app.step(Key::Esc, now).0.input.len() == 0,
{
}

/// The controller.
pub struct App {
    notes_manager: NotesManager,
    config: Config,
    widget_mode: bool,
    should_quit: bool,
    current_input: String,
    selected_note: Option<usize>,
    mode: AppMode,
}

impl View for App {
    type V = AppView;

    closed spec fn view(&self) -> AppView {
        AppView {
            store: self.notes_manager@,
            mode: self.mode,
            input: self.current_input@,
            selected: self.selected_note,
            should_quit: self.should_quit,
            widget_mode: self.widget_mode,
        }
    }
}

impl App {
    #[verifier::type_invariant]
    spec fn inv(self) -> bool {
        self@.wf()
    }

    /// The settings that the controller was started with.
    pub closed spec fn spec_config(self) -> Config {
        self.config
    }

    /// Starts the controller on a store and its settings: in the widget where
    /// `widget_mode` says so, else browsing; with nothing typed and nothing
    /// selected.
    pub fn new(widget_mode: bool, config: Config, notes_manager: NotesManager) -> (app: App)
        ensures
            app@ == AppView::started(notes_manager@, widget_mode),
            app@.wf(),
            app.spec_config() == config,
    {
        proof {
            notes_manager.lemma_view_wf();
        }
        App {
            notes_manager,
            config,
            widget_mode,
            should_quit: false,
            current_input: String::new(),
            selected_note: None,
            mode: if widget_mode {
                AppMode::Widget
            } else {
                AppMode::Normal
            },
        }
    }

    /// Turns to the widget, whatever the mode was.
    pub fn enter_widget(&mut self)
        ensures
            final(self)@ == (AppView { mode: AppMode::Widget, ..old(self)@ }),
            final(self)@.wf(),
            final(self).spec_config() == old(self).spec_config(),
    {
        proof {
            use_type_invariant(&*self);
        }
        self.mode = AppMode::Widget;
    }

    /// Takes a key press. What the press does is [`AppView::step`]; the clock
    /// is read only where the press makes a note, which is then made at the
    /// current instant.
    pub fn handle_key_event(&mut self, key: Key) -> (action: Action)
        ensures
            exists|now: Timestamp| (final(self)@, action) == #[trigger] old(self)@.step(key, now),
            !old(self)@.makes_note(key) ==> forall|now: Timestamp|
                (final(self)@, action) == #[trigger] old(self)@.step(key, now),
            final(self)@.wf(),
            final(self).spec_config() == old(self).spec_config(),
    {
        let now = if self.makes_note(key) {
            Timestamp::now()
        } else {
            Timestamp::epoch()
        };
        let action = self.handle_key_event_at(key, now);
        assert((self@, action) == old(self)@.step(key, now));
        action
    }

    /// Tells whether a key press makes a note.
    pub fn makes_note(&self, key: Key) -> (r: bool)
        ensures
            r == self@.makes_note(key),
    {
        if self.notes_manager.has_unsaved_changes() {
            return false;
        }
        let commits = match self.mode {
            AppMode::Insert => match key {
                Key::Esc => true,
                _ => false,
            },
            AppMode::Widget => match key {
                Key::Enter => true,
                _ => false,
            },
            _ => false,
        };
        commits && !blank(self.current_input.as_str())
    }

    /// Takes a key press at the instant `now`.
    pub fn handle_key_event_at(&mut self, key: Key, now: Timestamp) -> (action: Action)
        ensures
            (final(self)@, action) == old(self)@.step(key, now),
            final(self)@.wf(),
            final(self).spec_config() == old(self).spec_config(),
    {
        proof {
            use_type_invariant(&*self);
        }
        if self.notes_manager.has_unsaved_changes() {
            return Action::Save;
        }
        match self.mode {
            AppMode::Normal => self.handle_normal_mode(key),
            AppMode::Insert => self.handle_insert_mode(key, now),
            AppMode::Search => self.handle_search_mode(key),
            AppMode::Widget => self.handle_widget_key_event(key, now),
        }
    }

    /// A key press while browsing.
    fn handle_normal_mode(&mut self, key: Key) -> (action: Action)
        requires
            !old(self)@.store.unsaved,
        ensures
            (final(self)@, action) == old(self)@.step_normal(key),
            final(self)@.wf(),
            final(self).spec_config() == old(self).spec_config(),
    {
        proof {
            use_type_invariant(&*self);
        }
        let len = self.notes_manager.len();
        match key {
            Key::Char(c) => {
                if c == 'q' {
                    self.should_quit = true;
                } else if c == 'n' {
                    self.clear_input();
                    self.mode = AppMode::Insert;
                } else if c == 's' {
                    self.clear_input();
                    self.mode = AppMode::Search;
                } else if c == 'w' {
                    self.mode = AppMode::Widget;
                    return Action::OpenWidget;
                }
                Action::Nothing
            },
            Key::Up => {
                match self.selected_note {
                    Some(selected) => {
                        if selected > 0 {
                            self.selected_note = Some(selected - 1);
                        }
                    },
                    None => {
                        if len > 0 {
                            self.selected_note = Some(len - 1);
                        }
                    },
                }
                Action::Nothing
            },
            Key::Down => {
                match self.selected_note {
                    Some(selected) => {
                        if selected + 1 < len {
                            self.selected_note = Some(selected + 1);
                        }
                    },
                    None => {
                        if len > 0 {
                            self.selected_note = Some(0);
                        }
                    },
                }
                Action::Nothing
            },
            Key::Enter => {
                match self.selected_note {
                    Some(selected) => {
                        if selected < len {
                            let content = self.notes_manager.notes()[selected].content().clone();
                            self.current_input = content;
                            self.mode = AppMode::Insert;
                        }
                    },
                    None => {},
                }
                Action::Nothing
            },
            Key::Delete => {
                match self.selected_note {
                    Some(selected) => {
                        if selected < len {
                            self.selected_note = None;
                            let mut store = NotesManager::empty(String::new());
                            core::mem::swap(&mut self.notes_manager, &mut store);
                            store.delete_note(selected);
                            self.notes_manager = store;
                            self.selected_note = Some(selected);
                            return Action::Save;
                        }
                    },
                    None => {},
                }
                Action::Nothing
            },
            _ => Action::Nothing,
        }
    }

    /// A key press while a note is typed.
    fn handle_insert_mode(&mut self, key: Key, now: Timestamp) -> (action: Action)
        ensures
            (final(self)@, action) == old(self)@.step_insert(key, now),
            final(self)@.wf(),
            final(self).spec_config() == old(self).spec_config(),
    {
        proof {
            use_type_invariant(&*self);
        }
        match key {
            Key::Esc => {
                if blank(self.current_input.as_str()) {
                    self.clear_input();
                    self.mode = AppMode::Normal;
                    Action::Nothing
                } else {
                    self.commit_input(now);
                    Action::Save
                }
            },
            Key::Backspace => {
                self.erase_input();
                Action::Nothing
            },
            Key::Char(c) => {
                self.type_input(c);
                Action::Nothing
            },
            _ => Action::Nothing,
        }
    }

    /// A key press while a search is typed.
    fn handle_search_mode(&mut self, key: Key) -> (action: Action)
        ensures
            (final(self)@, action) == old(self)@.step_search(key),
            final(self)@.wf(),
            final(self).spec_config() == old(self).spec_config(),
    {
        proof {
            use_type_invariant(&*self);
        }
        match key {
            Key::Esc => {
                self.clear_input();
                self.mode = AppMode::Normal;
            },
            Key::Enter => {
                self.mode = AppMode::Normal;
            },
            Key::Backspace => {
                self.erase_input();
            },
            Key::Char(c) => {
                self.type_input(c);
            },
            _ => {},
        }
        Action::Nothing
    }

    /// A key press in the widget.
    fn handle_widget_key_event(&mut self, key: Key, now: Timestamp) -> (action: Action)
        ensures
            (final(self)@, action) == old(self)@.step_widget(key, now),
            final(self)@.wf(),
            final(self).spec_config() == old(self).spec_config(),
    {
        proof {
            use_type_invariant(&*self);
        }
        match key {
            Key::Esc => {
                self.should_quit = true;
                Action::Nothing
            },
            Key::Enter => {
                if blank(self.current_input.as_str()) {
                    Action::Nothing
                } else {
                    self.commit_input(now);
                    Action::Save
                }
            },
            Key::Backspace => {
                self.erase_input();
                Action::Nothing
            },
            Key::Char(c) => {
                self.type_input(c);
                Action::Nothing
            },
            _ => Action::Nothing,
        }
    }

    /// Empties the typed text.
    fn clear_input(&mut self)
        ensures
            final(self)@ == (AppView { input: Seq::empty(), ..old(self)@ }),
            final(self).spec_config() == old(self).spec_config(),
    {
        proof {
            use_type_invariant(&*self);
        }
        self.current_input = String::new();
    }

    /// Puts `c` at the end of the typed text.
    fn type_input(&mut self, c: char)
        ensures
            final(self)@ == old(self)@.typed(c),
            final(self).spec_config() == old(self).spec_config(),
    {
        proof {
            use_type_invariant(&*self);
        }
        let mut input = String::new();
        core::mem::swap(&mut self.current_input, &mut input);
        input.push(c);
        self.current_input = input;
    }

    /// Takes the last character of the typed text away, if there is one.
    fn erase_input(&mut self)
        ensures
            final(self)@ == old(self)@.erased(),
            final(self).spec_config() == old(self).spec_config(),
    {
        proof {
            use_type_invariant(&*self);
        }
        let mut input = String::new();
        core::mem::swap(&mut self.current_input, &mut input);
        input.pop();
        self.current_input = input;
    }

    /// Puts a note of the typed text, made at `now`, first in the store.
    fn commit_input(&mut self, now: Timestamp)
        ensures
            final(self)@ == old(self)@.committed(now),
            final(self).spec_config() == old(self).spec_config(),
    {
        proof {
            use_type_invariant(&*self);
        }
        let note = Note::created(self.current_input.clone(), now);
        // The store is taken out, changed and put back. While it is out
        // nothing is selected, so that the selection names a note at every
        // step.
        let selected = self.selected_note;
        self.selected_note = None;
        let mut store = NotesManager::empty(String::new());
        core::mem::swap(&mut self.notes_manager, &mut store);
        store.add_note(note);
        self.notes_manager = store;
        self.selected_note = selected;
    }

    /// Ends a step that asked for a save, once the caller has tried to write
    /// the notes. After a write that failed the store holds again what
    /// storage holds, the failure is reported, and the text, the mode and the
    /// selection stand as they did before the step.
    pub fn complete_save(&mut self, written: bool) -> (r: Result<(), StoreError>)
        ensures
            final(self)@ == old(self)@.settled(written),
            final(self)@.wf(),
            written ==> r is Ok,
            !written ==> r == Err::<(), StoreError>(StoreError::Io),
            final(self).spec_config() == old(self).spec_config(),
    {
        proof {
            use_type_invariant(&*self);
        }
        let selected = self.selected_note;
        let waiting = self.notes_manager.has_unsaved_changes();
        self.selected_note = None;
        let mut store = NotesManager::empty(String::new());
        core::mem::swap(&mut self.notes_manager, &mut store);
        let result = store.finish_save(written);
        let len = store.len();
        self.notes_manager = store;
        if written && waiting {
            self.selected_note = match selected {
                Some(i) => if len == 0 {
                    None
                } else if i >= len {
                    Some(len - 1)
                } else {
                    Some(i)
                },
                None => None,
            };
            match self.mode {
                AppMode::Insert => {
                    self.current_input = String::new();
                    self.mode = AppMode::Normal;
                },
                AppMode::Widget => {
                    self.current_input = String::new();
                    self.should_quit = true;
                },
                _ => {},
            }
        } else {
            self.selected_note = selected;
        }
        result
    }

    /// The note store.
    pub fn notes_manager(&self) -> (r: &NotesManager)
        ensures
            r@ == self@.store,
    {
        &self.notes_manager
    }

    /// The settings.
    pub fn config(&self) -> (r: &Config)
        ensures
            *r == self.spec_config(),
    {
        &self.config
    }

    /// The mode.
    pub fn mode(&self) -> (r: AppMode)
        ensures
            r == self@.mode,
    {
        self.mode
    }

    /// The text that is being typed.
    pub fn current_input(&self) -> (r: &String)
        ensures
            r@ == self@.input,
    {
        &self.current_input
    }

    /// The place of the selected note, if one is selected. With no change
    /// waiting to be saved it is a place of the list.
    pub fn selected_note(&self) -> (r: Option<usize>)
        ensures
            r == self@.selected,
            self@.wf(),
            !self@.store.unsaved ==> (r matches Some(i) ==> i < self@.store.notes.len()),
    {
        proof {
            use_type_invariant(self);
        }
        self.selected_note
    }

    /// Whether the tool has been asked to end.
    pub fn should_quit(&self) -> (r: bool)
        ensures
            r == self@.should_quit,
    {
        self.should_quit
    }

    /// Whether the tool was started as the widget.
    pub fn widget_mode(&self) -> (r: bool)
        ensures
            r == self@.widget_mode,
    {
        self.widget_mode
    }
}

} // verus!
