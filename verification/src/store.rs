//! The note store: the ordered list of notes, newest first, and the record of
//! what has not reached storage yet.
//!
//! The store does not touch the file system. A change of the list waits until
//! the caller has written the list and reports with
//! [`NotesManager::finish_save`] how the writing went: after a failure the
//! list goes back to what storage holds.

use crate::export::{markdown, markdown_section_text, ExportFormat};
use crate::note::{Note, NoteView};
use crate::strings::{
    ascending, holds_text, insert_all_ascending, lemma_ascending_is_distinct, texts,
};
use crate::time::Timestamp;
use vstd::prelude::*;
use vstd::string::StringExecFns;

verus! {

/// Why the store could not do what was asked.
#[derive(Debug, Clone, Copy, PartialEq, Eq, Structural)]
pub enum StoreError {
    /// A directory or a file could not be made, read or written.
    Io,
    /// The backing file is there but does not hold a list of notes.
    CorruptData,
}

/// What reading the backing file of a notes directory gave.
#[derive(Debug)]
pub enum LoadOutcome {
    /// The notes directory is missing and could not be made.
    DirectoryFailed,
    /// The directory is there and holds no backing file.
    Missing,
    /// The backing file is there and could not be read.
    Unreadable,
    /// The backing file was read and does not hold a list of notes.
    Corrupt,
    /// The backing file holds these notes, in this order.
    Loaded(Vec<Note>),
}

/// The views of the notes of a vector.
pub open spec fn views(notes: Seq<Note>) -> Seq<NoteView> {
    notes.map_values(|n: Note| n@)
}

/// The places of the notes that meet `wanted`, in rising order.
pub open spec fn hits(notes: Seq<NoteView>, wanted: spec_fn(NoteView) -> bool) -> Seq<int>
    decreases notes.len(),
{
    if notes.len() == 0 {
        Seq::empty()
    } else if wanted(notes.last()) {
        hits(notes.drop_last(), wanted).push(notes.len() - 1)
    } else {
        hits(notes.drop_last(), wanted)
    }
}

/// Whether one of the first `count` notes carries `tag`.
pub open spec fn carried(notes: Seq<NoteView>, count: int, tag: Seq<char>) -> bool {
    exists|i: int| 0 <= i < count && i < notes.len() && (#[trigger] notes[i]).tags.contains(tag)
}

/// What a store is, as mathematics.
pub struct ManagerView {
    /// The notes in store order: the one added last comes first.
    pub notes: Seq<NoteView>,
    /// The notes as storage holds them: the list at the last save that
    /// succeeded, or at loading.
    pub durable: Seq<NoteView>,
    /// Whether a change waits to be saved.
    pub unsaved: bool,
}

impl ManagerView {
    /// Without a change that waits, memory and storage hold the same list.
    pub open spec fn wf(self) -> bool {
        !self.unsaved ==> self.notes == self.durable
    }

    /// The store that loading `notes` gives.
    pub open spec fn loaded(notes: Seq<NoteView>) -> ManagerView {
        ManagerView { notes, durable: notes, unsaved: false }
    }

    /// The store after `note` was added: it stands first.
    pub open spec fn added(self, note: NoteView) -> ManagerView {
        ManagerView { notes: seq![note] + self.notes, durable: self.durable, unsaved: true }
    }

    /// The store after the note at `index` got the text `content` at `now`;
    /// the store itself where there is no such note.
    pub open spec fn updated(self, index: int, content: Seq<char>, now: Timestamp) -> ManagerView {
        if 0 <= index < self.notes.len() {
            ManagerView {
                notes: self.notes.update(index, self.notes[index].with_content(content, now)),
                durable: self.durable,
                unsaved: true,
            }
        } else {
            self
        }
    }

    /// The store after the note at `index` was taken out; the store itself
    /// where there is no such note.
    pub open spec fn deleted(self, index: int) -> ManagerView {
        if 0 <= index < self.notes.len() {
            ManagerView { notes: self.notes.remove(index), durable: self.durable, unsaved: true }
        } else {
            self
        }
    }

    /// The store after the list was written, or after the writing failed: then
    /// memory goes back to what storage holds.
    pub open spec fn settled(self, written: bool) -> ManagerView {
        if written {
            ManagerView { notes: self.notes, durable: self.notes, unsaved: false }
        } else {
            ManagerView { notes: self.durable, durable: self.durable, unsaved: false }
        }
    }

    /// The notes that match `query`, each with its place, in store order.
    pub open spec fn search(self, query: Seq<char>) -> Seq<(int, NoteView)> {
        hits(self.notes, |n: NoteView| n.matches(query)).map_values(
            |i: int| (i, self.notes[i]),
        )
    }

    /// The notes that carry `tag`, in store order.
    pub open spec fn tagged(self, tag: Seq<char>) -> Seq<NoteView> {
        hits(self.notes, |n: NoteView| n.tags.contains(tag)).map_values(|i: int| self.notes[i])
    }

    /// The first `limit` notes in store order, or all of them where there are
    /// fewer.
    pub open spec fn recent(self, limit: nat) -> Seq<NoteView> {
        if limit < self.notes.len() {
            self.notes.take(limit as int)
        } else {
            self.notes
        }
    }

    /// The store after each note of `added` was added, in their order.
    pub open spec fn added_all(self, added: Seq<NoteView>) -> ManagerView
        decreases added.len(),
    {
        if added.len() == 0 {
            self
        } else {
            self.added_all(added.drop_last()).added(added.last())
        }
    }

    /// Whether a note of the store carries `tag`.
    pub open spec fn carries(self, tag: Seq<char>) -> bool {
        carried(self.notes, self.notes.len() as int, tag)
    }
}

/// [`hits`] names places of the list, each of a note that meets `wanted`; it
/// names every such place; and it names them in rising order, so that the
/// notes keep the order that they have in the list.
pub proof fn lemma_hits(notes: Seq<NoteView>, wanted: spec_fn(NoteView) -> bool)
    ensures
        forall|k: int|
            0 <= k < hits(notes, wanted).len() ==> 0 <= (#[trigger] hits(notes, wanted)[k])
                < notes.len() && wanted(notes[hits(notes, wanted)[k]]),
        forall|i: int|
            0 <= i < notes.len() && wanted(#[trigger] notes[i]) ==> hits(notes, wanted).contains(
                i,
            ),
        forall|j: int, k: int|
            0 <= j < k < hits(notes, wanted).len() ==> (#[trigger] hits(notes, wanted)[j]) < (
            #[trigger] hits(notes, wanted)[k]),
    decreases notes.len(),
{
    if notes.len() > 0 {
        let front = notes.drop_last();
        lemma_hits(front, wanted);
        let found = hits(notes, wanted);
        let earlier = hits(front, wanted);
        assert forall|i: int|
            0 <= i < notes.len() && wanted(#[trigger] notes[i]) implies found.contains(i) by {
            if i < notes.len() - 1 {
                assert(front[i] == notes[i]);
                let k = choose|k: int| 0 <= k < earlier.len() && earlier[k] == i;
                assert(found[k] == i);
            } else {
                assert(found[found.len() - 1] == i);
            }
        }
    }
}

/// Notes that are added one after the other stand in the list in the reverse
/// of that order, before the notes that were there: the store order is the
/// order of adding, newest first.
pub proof fn lemma_added_all_reverses(store: ManagerView, added: Seq<NoteView>)
    ensures
        store.added_all(added).notes == added.reverse() + store.notes,
    decreases added.len(),
{
    if added.len() > 0 {
        lemma_added_all_reverses(store, added.drop_last());
    }
}

/// A search gives notes of the store, each with its own place and each a
/// match; it gives every note that matches; and it gives them in store order.
pub proof fn lemma_search_is_exact(store: ManagerView, query: Seq<char>)
    ensures
        forall|k: int|
            0 <= k < store.search(query).len() ==> {
                let hit = #[trigger] store.search(query)[k];
                0 <= hit.0 < store.notes.len() && hit.1 == store.notes[hit.0] && hit.1.matches(
                    query,
                )
            },
        forall|i: int|
            0 <= i < store.notes.len() && (#[trigger] store.notes[i]).matches(query)
                ==> store.search(query).contains((i, store.notes[i])),
        forall|j: int, k: int|
            0 <= j < k < store.search(query).len() ==> (#[trigger] store.search(query)[j]).0 < (
            #[trigger] store.search(query)[k]).0,
{
    let wanted = |n: NoteView| n.matches(query);
    let found = hits(store.notes, wanted);
    lemma_hits(store.notes, wanted);
    assert forall|i: int|
        0 <= i < store.notes.len() && (#[trigger] store.notes[i]).matches(
            query,
        ) implies store.search(query).contains((i, store.notes[i])) by {
        let k = choose|k: int| 0 <= k < found.len() && found[k] == i;
        assert(store.search(query)[k] == (i, store.notes[i]));
    }
}

/// After a note was deleted and the list was written, storage holds the list
/// without that note, and a store loaded from what storage holds has exactly
/// that list.
pub proof fn lemma_delete_is_durable(store: ManagerView, index: int)
    ensures
        store.deleted(index).settled(true).durable == store.deleted(index).notes,
        ManagerView::loaded(store.deleted(index).settled(true).durable).notes == store.deleted(
            index,
        ).notes,
        0 <= index < store.notes.len() ==> store.deleted(index).notes == store.notes.remove(
            index,
        ),
{
}

/// After a write that failed the list is what storage held before, whatever
/// was added, changed or deleted since the last save.
pub proof fn lemma_failed_save_reverts(store: ManagerView)
    ensures
        store.settled(false).notes == store.durable,
        store.settled(false).durable == store.durable,
        !store.settled(false).unsaved,
{
}

/// How to take back one change of the list.
enum Undo {
    /// Take out the first note.
    Added,
    /// Put the earlier form of the note at `index` back.
    Updated { index: usize, before: Note },
    /// Put `note` back in at `index`.
    Deleted { index: usize, note: Note },
}

impl Undo {
    /// Whether this step can be taken back on `notes`.
    spec fn fits(self, notes: Seq<NoteView>) -> bool {
        match self {
            Undo::Added => notes.len() > 0,
            Undo::Updated { index, before } => index < notes.len(),
            Undo::Deleted { index, note } => index <= notes.len(),
        }
    }

    /// The list before this step.
    spec fn undone(self, notes: Seq<NoteView>) -> Seq<NoteView> {
        match self {
            Undo::Added => notes.drop_first(),
            Undo::Updated { index, before } => notes.update(index as int, before@),
            Undo::Deleted { index, note } => notes.insert(index as int, note@),
        }
    }
}

/// Whether the steps of `log` can be taken back on `notes`, the last one first.
spec fn reversible(notes: Seq<NoteView>, log: Seq<Undo>) -> bool
    decreases log.len(),
{
    log.len() == 0 || (log.last().fits(notes) && reversible(
        log.last().undone(notes),
        log.drop_last(),
    ))
}

/// The list before the steps of `log`.
spec fn rewound(notes: Seq<NoteView>, log: Seq<Undo>) -> Seq<NoteView>
    decreases log.len(),
{
    if log.len() == 0 {
        notes
    } else {
        rewound(log.last().undone(notes), log.drop_last())
    }
}

/// The notes of one notes directory.
pub struct NotesManager {
    notes: Vec<Note>,
    undo: Vec<Undo>,
    notes_dir: String,
}

impl View for NotesManager {
    type V = ManagerView;

    closed spec fn view(&self) -> ManagerView {
        ManagerView {
            notes: views(self.notes@),
            durable: rewound(views(self.notes@), self.undo@),
            unsaved: self.undo@.len() > 0,
        }
    }
}

impl NotesManager {
    #[verifier::type_invariant]
    spec fn inv(self) -> bool {
        reversible(views(self.notes@), self.undo@)
    }

    /// Without a change that waits, memory and storage hold the same list.
    pub proof fn lemma_view_wf(self)
        ensures
            self@.wf(),
    {
    }

    /// The directory that this store belongs to.
    pub closed spec fn spec_notes_dir(self) -> Seq<char> {
        self.notes_dir@
    }

    /// The store of the directory `notes_dir` without any note.
    pub fn empty(notes_dir: String) -> (r: NotesManager)
        ensures
            r@ == ManagerView::loaded(Seq::empty()),
            r.spec_notes_dir() == notes_dir@,
    {
        let store = NotesManager { notes: Vec::new(), undo: Vec::new(), notes_dir };
        assert(views(store.notes@) =~= Seq::empty());
        store
    }

    /// Sets up the store of the directory `notes_dir` from what reading its
    /// backing file gave. A missing file is an empty store.
    pub fn new(notes_dir: String, outcome: LoadOutcome) -> (r: Result<NotesManager, StoreError>)
        ensures
            match outcome {
                LoadOutcome::DirectoryFailed | LoadOutcome::Unreadable => r == Err::<
                    NotesManager,
                    StoreError,
                >(StoreError::Io),
                LoadOutcome::Corrupt => r == Err::<NotesManager, StoreError>(
                    StoreError::CorruptData,
                ),
                LoadOutcome::Missing => r is Ok && r->Ok_0@ == ManagerView::loaded(Seq::empty())
                    && r->Ok_0.spec_notes_dir() == notes_dir@,
                LoadOutcome::Loaded(notes) => r is Ok && r->Ok_0@ == ManagerView::loaded(
                    views(notes@),
                ) && r->Ok_0.spec_notes_dir() == notes_dir@,
            },
    {
        match outcome {
            LoadOutcome::DirectoryFailed => Err(StoreError::Io),
            LoadOutcome::Unreadable => Err(StoreError::Io),
            LoadOutcome::Corrupt => Err(StoreError::CorruptData),
            LoadOutcome::Missing => Ok(NotesManager::empty(notes_dir)),
            LoadOutcome::Loaded(notes) => Ok(NotesManager { notes, undo: Vec::new(), notes_dir }),
        }
    }

    /// Puts `note` first in the list. The change waits to be saved.
    pub fn add_note(&mut self, note: Note)
        ensures
            final(self)@ == old(self)@.added(note@),
            final(self).spec_notes_dir() == old(self).spec_notes_dir(),
    {
        proof {
            use_type_invariant(&*self);
        }
        let ghost before = views(self.notes@);
        // The log is taken out first and put back last, so that the steps in
        // it can be taken back on the list whenever both are in place.
        let mut log: Vec<Undo> = Vec::new();
        core::mem::swap(&mut self.undo, &mut log);
        let mut notes: Vec<Note> = Vec::new();
        core::mem::swap(&mut self.notes, &mut notes);
        notes.insert(0, note);
        log.push(Undo::Added);
        proof {
            assert(views(notes@) =~= seq![note@] + before);
            assert(views(notes@).drop_first() =~= before);
            assert(log@.drop_last() =~= old(self).undo@);
        }
        self.notes = notes;
        self.undo = log;
    }

    /// Gives the note at `index` the text `content` and marks it as changed
    /// now. Does nothing where there is no such note; otherwise the change
    /// waits to be saved.
    pub fn update_note(&mut self, index: usize, content: String)
        ensures
            index >= old(self)@.notes.len() ==> final(self)@ == old(self)@,
            index < old(self)@.notes.len() ==> final(self)@ == old(self)@.updated(
                index as int,
                content@,
                final(self)@.notes[index as int].updated_at,
            ),
            final(self).spec_notes_dir() == old(self).spec_notes_dir(),
    {
        if index < self.notes.len() {
            self.update_note_at(index, content, Timestamp::now());
            assert(self@.notes =~= old(self)@.notes.update(
                index as int,
                old(self)@.notes[index as int].with_content(
                    content@,
                    self@.notes[index as int].updated_at,
                ),
            ));
        }
    }

    /// Gives the note at `index` the text `content` and marks it as changed at
    /// `now`. Does nothing where there is no such note; otherwise the change
    /// waits to be saved.
    pub fn update_note_at(&mut self, index: usize, content: String, now: Timestamp)
        ensures
            final(self)@ == old(self)@.updated(index as int, content@, now),
            final(self).spec_notes_dir() == old(self).spec_notes_dir(),
    {
        proof {
            use_type_invariant(&*self);
        }
        if index < self.notes.len() {
            let ghost earlier = views(self.notes@);
            let mut log: Vec<Undo> = Vec::new();
            core::mem::swap(&mut self.undo, &mut log);
            let mut notes: Vec<Note> = Vec::new();
            core::mem::swap(&mut self.notes, &mut notes);
            let before = notes[index].clone();
            notes[index].update_content_at(content, now);
            log.push(Undo::Updated { index, before });
            proof {
                assert(views(notes@) =~= earlier.update(
                    index as int,
                    earlier[index as int].with_content(content@, now),
                ));
                assert(views(notes@).update(index as int, before@) =~= earlier);
                assert(log@.drop_last() =~= old(self).undo@);
            }
            self.notes = notes;
            self.undo = log;
        }
    }

    /// Takes the note at `index` out of the list. Does nothing where there is
    /// no such note; otherwise the change waits to be saved.
    pub fn delete_note(&mut self, index: usize)
        ensures
            final(self)@ == old(self)@.deleted(index as int),
            final(self).spec_notes_dir() == old(self).spec_notes_dir(),
    {
        proof {
            use_type_invariant(&*self);
        }
        if index < self.notes.len() {
            let ghost earlier = views(self.notes@);
            let mut log: Vec<Undo> = Vec::new();
            core::mem::swap(&mut self.undo, &mut log);
            let mut notes: Vec<Note> = Vec::new();
            core::mem::swap(&mut self.notes, &mut notes);
            let note = notes.remove(index);
            log.push(Undo::Deleted { index, note });
            proof {
                assert(views(notes@) =~= earlier.remove(index as int));
                assert(views(notes@).insert(index as int, note@) =~= earlier);
                assert(log@.drop_last() =~= old(self).undo@);
            }
            self.notes = notes;
            self.undo = log;
        }
    }

    /// Closes the changes that wait, once the caller has tried to write the
    /// list to storage. After a write that succeeded the list stands as it is;
    /// after one that failed every change since the last save is taken back,
    /// and the failure is reported.
    pub fn finish_save(&mut self, written: bool) -> (r: Result<(), StoreError>)
        ensures
            final(self)@ == old(self)@.settled(written),
            written ==> r is Ok,
            !written ==> r == Err::<(), StoreError>(StoreError::Io),
            final(self).spec_notes_dir() == old(self).spec_notes_dir(),
    {
        proof {
            use_type_invariant(&*self);
        }
        let mut log: Vec<Undo> = Vec::new();
        core::mem::swap(&mut self.undo, &mut log);
        if written {
            return Ok(());
        }
        let mut notes: Vec<Note> = Vec::new();
        core::mem::swap(&mut self.notes, &mut notes);
        while log.len() > 0
            invariant
                reversible(views(notes@), log@),
                rewound(views(notes@), log@) == old(self)@.durable,
            decreases log.len(),
        {
            let ghost current = views(notes@);
            let ghost steps = log@;
            let step = log.pop().unwrap();
            assert(log@ =~= steps.drop_last());
            match step {
                Undo::Added => {
                    notes.remove(0);
                    assert(views(notes@) =~= current.drop_first());
                },
                Undo::Updated { index, before } => {
                    notes[index] = before;
                    assert(views(notes@) =~= current.update(index as int, before@));
                },
                Undo::Deleted { index, note } => {
                    notes.insert(index, note);
                    assert(views(notes@) =~= current.insert(index as int, note@));
                },
            }
        }
        self.notes = notes;
        Err(StoreError::Io)
    }

    /// The notes that match `query` without regard to case, in their text or
    /// in a tag, each with its place in the list, in store order. The empty
    /// query matches every note.
    pub fn search_notes(&self, query: &str) -> (r: Vec<(usize, &Note)>)
        ensures
            r@.map_values(|p: (usize, &Note)| (p.0 as int, p.1@)) == self@.search(query@),
    {
        let ghost wanted = |n: NoteView| n.matches(query@);
        let mut out: Vec<(usize, &Note)> = Vec::new();
        let mut i: usize = 0;
        while i < self.notes.len()
            invariant
                i <= self.notes.len(),
                wanted == |n: NoteView| n.matches(query@),
                out.len() == hits(views(self.notes@).take(i as int), wanted).len(),
                forall|k: int|
                    0 <= k < out.len() ==> (#[trigger] out[k]).0 == hits(
                        views(self.notes@).take(i as int),
                        wanted,
                    )[k] && out[k].0 < i && out[k].1@ == self.notes[out[k].0 as int]@,
            decreases self.notes.len() - i,
        {
            proof {
                assert(views(self.notes@).take(i + 1).drop_last() =~= views(self.notes@).take(
                    i as int,
                ));
            }
            if self.notes[i].matches_search(query) {
                out.push((i, &self.notes[i]));
            }
            i += 1;
        }
        proof {
            assert(views(self.notes@).take(i as int) =~= views(self.notes@));
            lemma_hits(views(self.notes@), wanted);
        }
        out
    }

    /// The first `limit` notes in store order, or all of them where there are
    /// fewer.
    pub fn get_recent_notes(&self, limit: usize) -> (r: Vec<&Note>)
        ensures
            r@.map_values(|n: &Note| n@) == self@.recent(limit as nat),
    {
        let mut out: Vec<&Note> = Vec::new();
        let mut i: usize = 0;
        while i < self.notes.len() && i < limit
            invariant
                i <= self.notes.len(),
                i <= limit,
                out.len() == i,
                forall|k: int| 0 <= k < i ==> (#[trigger] out[k])@ == self.notes[k]@,
            decreases self.notes.len() - i,
        {
            out.push(&self.notes[i]);
            i += 1;
        }
        out
    }

    /// The first note with the identifier `id`, if there is one.
    pub fn get_note_by_id(&self, id: &str) -> (r: Option<&Note>)
        ensures
            match r {
                Some(note) => exists|i: int|
                    0 <= i < self@.notes.len() && note@ == #[trigger] self@.notes[i] && note@.id
                        == id@ && forall|k: int|
                        0 <= k < i ==> (#[trigger] self@.notes[k]).id != id@,
                None => forall|i: int|
                    0 <= i < self@.notes.len() ==> (#[trigger] self@.notes[i]).id != id@,
            },
    {
        let mut i: usize = 0;
        while i < self.notes.len()
            invariant
                i <= self.notes.len(),
                forall|k: int| 0 <= k < i ==> (#[trigger] views(self.notes@)[k]).id != id@,
            decreases self.notes.len() - i,
        {
            if *self.notes[i].id().as_str() == *id {
                assert(self.notes[i as int]@ == self@.notes[i as int]);
                return Some(&self.notes[i]);
            }
            i += 1;
        }
        None
    }

    /// Every tag that a note of the store carries, once each, in the
    /// lexicographic order of the code points.
    pub fn get_all_tags(&self) -> (r: Vec<String>)
        ensures
            ascending(texts(r@)),
            texts(r@).no_duplicates(),
            forall|t: Seq<char>| #[trigger] texts(r@).contains(t) <==> self@.carries(t),
    {
        let ghost notes = views(self.notes@);
        let mut out: Vec<String> = Vec::new();
        let mut i: usize = 0;
        assert forall|t: Seq<char>| !(#[trigger] texts(out@).contains(t)) by {}
        while i < self.notes.len()
            invariant
                i <= self.notes.len(),
                notes == views(self.notes@),
                ascending(texts(out@)),
                forall|t: Seq<char>| #[trigger]
                    texts(out@).contains(t) <==> carried(notes, i as int, t),
            decreases self.notes.len() - i,
        {
            let ghost earlier = texts(out@);
            insert_all_ascending(&mut out, self.notes[i].tags());
            proof {
                assert forall|t: Seq<char>| #[trigger]
                    texts(out@).contains(t) <==> carried(notes, i + 1, t) by {
                    assert(earlier.contains(t) <==> carried(notes, i as int, t));
                    if notes[i as int].tags.contains(t) {
                        assert(carried(notes, i + 1, t));
                    }
                }
            }
            i += 1;
        }
        proof {
            lemma_ascending_is_distinct(texts(out@));
        }
        out
    }

    /// The list as one document. In Markdown the document is written here:
    /// a title, then for each note in store order a heading with the making of
    /// the note as `YYYY-MM-DD HH:MM:SS`, the text, the tags in one line where
    /// there are any, and a rule. For JSON the document is `json`, the
    /// serialization of [`NotesManager::notes`] that the caller made.
    pub fn export_notes(&self, format: ExportFormat, json: String) -> (r: String)
        ensures
            format == ExportFormat::Json ==> r@ == json@,
            format == ExportFormat::Markdown ==> r@ == markdown(self@.notes),
    {
        match format {
            ExportFormat::Json => json,
            ExportFormat::Markdown => {
                let mut out = String::new();
                out.append("# Turbo Notes Export\n\n");
                let mut i: usize = 0;
                while i < self.notes.len()
                    invariant
                        i <= self.notes.len(),
                        out@ == markdown(views(self.notes@).take(i as int)),
                    decreases self.notes.len() - i,
                {
                    proof {
                        assert(views(self.notes@).take(i + 1).drop_last() =~= views(
                            self.notes@,
                        ).take(i as int));
                    }
                    let note = &self.notes[i];
                    let stamp = note.created_at().date_time();
                    let section = markdown_section_text(
                        stamp.as_str(),
                        note.content().as_str(),
                        note.tags(),
                    );
                    out.append(section.as_str());
                    i += 1;
                }
                assert(views(self.notes@).take(i as int) =~= views(self.notes@));
                out
            },
        }
    }

    /// The notes that carry `tag`, in store order.
    pub fn get_notes_by_tag(&self, tag: &str) -> (r: Vec<&Note>)
        ensures
            r@.map_values(|n: &Note| n@) == self@.tagged(tag@),
    {
        let ghost wanted = |n: NoteView| n.tags.contains(tag@);
        let mut out: Vec<&Note> = Vec::new();
        let mut i: usize = 0;
        while i < self.notes.len()
            invariant
                i <= self.notes.len(),
                wanted == |n: NoteView| n.tags.contains(tag@),
                out.len() == hits(views(self.notes@).take(i as int), wanted).len(),
                forall|k: int|
                    0 <= k < out.len() ==> (#[trigger] out[k])@ == self.notes[hits(
                        views(self.notes@).take(i as int),
                        wanted,
                    )[k]]@,
            decreases self.notes.len() - i,
        {
            proof {
                assert(views(self.notes@).take(i + 1).drop_last() =~= views(self.notes@).take(
                    i as int,
                ));
            }
            if holds_text(self.notes[i].tags(), tag) {
                out.push(&self.notes[i]);
            }
            i += 1;
        }
        proof {
            assert(views(self.notes@).take(i as int) =~= views(self.notes@));
            lemma_hits(views(self.notes@), wanted);
        }
        out
    }

    /// The notes in store order: the one added last comes first.
    pub fn notes(&self) -> (r: &Vec<Note>)
        ensures
            views(r@) == self@.notes,
    {
        &self.notes
    }

    /// How many notes the store holds.
    pub fn len(&self) -> (r: usize)
        ensures
            r == self@.notes.len(),
    {
        self.notes.len()
    }

    /// Whether the store holds no note.
    pub fn is_empty(&self) -> (r: bool)
        ensures
            r == (self@.notes.len() == 0),
    {
        self.notes.len() == 0
    }

    /// Whether a change waits to be saved. Where none does, storage holds the
    /// list as it stands.
    pub fn has_unsaved_changes(&self) -> (r: bool)
        ensures
            r == self@.unsaved,
            self@.wf(),
    {
        self.undo.len() > 0
    }

    /// The directory that this store belongs to.
    pub fn notes_dir(&self) -> (r: &String)
        ensures
            r@ == self.spec_notes_dir(),
    {
        &self.notes_dir
    }
}

} // verus!
