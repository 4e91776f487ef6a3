//! A single note: its text, its tags and the instants of its making and of
//! its last change.

use crate::strings::{all_distinct, copy_texts, holds_text, lowered_texts, position_of, texts};
use crate::text::{contains_text, decimal, decimal_string, is_substring, lowercase, occurs_at};
use crate::time::Timestamp;
use vstd::prelude::*;

verus! {

/// The identifier that a note made at `created_at` gets: the nanoseconds since
/// the epoch in decimal, or `0` where 64 bits do not hold them.
pub open spec fn id_text(created_at: Timestamp) -> Seq<char> {
    if i64::MIN <= created_at.spec_total_nanos() <= i64::MAX {
        decimal(created_at.spec_total_nanos())
    } else {
        decimal(0)
    }
}

/// The mark that ends a shortened text.
pub open spec fn ellipsis() -> Seq<char> {
    seq!['.', '.', '.']
}

/// Whether `query` is part of `content` or of one of `tags`, letter for letter.
pub open spec fn found_in(content: Seq<char>, tags: Seq<Seq<char>>, query: Seq<char>) -> bool {
    is_substring(query, content) || exists|i: int|
        0 <= i < tags.len() && is_substring(query, #[trigger] tags[i])
}

/// What a note is, as mathematics.
pub struct NoteView {
    pub id: Seq<char>,
    pub content: Seq<char>,
    pub created_at: Timestamp,
    pub updated_at: Timestamp,
    pub tags: Seq<Seq<char>>,
}

impl NoteView {
    /// A note was not changed before it was made, and carries no tag twice.
    pub open spec fn wf(self) -> bool {
        &&& self.created_at.spec_at_or_before(self.updated_at)
        &&& self.tags.no_duplicates()
    }

    /// The note made from `content` at the instant `now`.
    pub open spec fn created(content: Seq<char>, now: Timestamp) -> NoteView {
        NoteView {
            id: id_text(now),
            content,
            created_at: now,
            updated_at: now,
            tags: Seq::empty(),
        }
    }

    /// This note with its last change set to `now`, or to its making where the
    /// clock fell back behind it.
    pub open spec fn touched(self, now: Timestamp) -> NoteView {
        NoteView { updated_at: self.created_at.spec_later(now), ..self }
    }

    /// This note with `content` for its text, changed at `now`.
    pub open spec fn with_content(self, content: Seq<char>, now: Timestamp) -> NoteView {
        NoteView { content, ..self }.touched(now)
    }

    /// This note with `tag` added at its end, changed at `now`; the note itself
    /// where it has the tag already.
    pub open spec fn with_tag(self, tag: Seq<char>, now: Timestamp) -> NoteView {
        if self.tags.contains(tag) {
            self
        } else {
            NoteView { tags: self.tags.push(tag), ..self }.touched(now)
        }
    }

    /// This note without `tag`, changed at `now`; the note itself where it
    /// does not have the tag.
    pub open spec fn without_tag(self, tag: Seq<char>, now: Timestamp) -> NoteView {
        if self.tags.contains(tag) {
            NoteView { tags: self.tags.remove(self.tags.index_of(tag)), ..self }.touched(now)
        } else {
            self
        }
    }

    /// Whether `query`, without regard to case, is part of the text or of a tag.
    pub open spec fn matches(self, query: Seq<char>) -> bool {
        found_in(lowercase(self.content), self.tags.map_values(|t: Seq<char>| lowercase(t)),
            lowercase(query))
    }

    /// The text cut to its first `max` characters and marked with an ellipsis,
    /// or the whole text where it is no longer than that.
    pub open spec fn preview(self, max: nat) -> Seq<char> {
        if self.content.len() <= max {
            self.content
        } else {
            self.content.take(max as int) + ellipsis()
        }
    }
}

/// No change of a note touches its identifier or the instant of its making;
/// every change leaves the note well formed, with a last change that is not
/// before the making, whatever the clock says.
pub proof fn lemma_changes_keep_identity(
    note: NoteView,
    content: Seq<char>,
    tag: Seq<char>,
    now: Timestamp,
)
    requires
        note.wf(),
    ensures
        NoteView::created(content, now).wf(),
        NoteView::created(content, now).created_at == NoteView::created(content, now).updated_at,
        note.with_content(content, now).wf(),
        note.with_content(content, now).id == note.id,
        note.with_content(content, now).created_at == note.created_at,
        note.with_tag(tag, now).wf(),
        note.with_tag(tag, now).id == note.id,
        note.with_tag(tag, now).created_at == note.created_at,
        note.without_tag(tag, now).wf(),
        note.without_tag(tag, now).id == note.id,
        note.without_tag(tag, now).created_at == note.created_at,
        !note.without_tag(tag, now).tags.contains(tag),
{
    if note.tags.contains(tag) {
        let at = note.tags.index_of(tag);
        let rest = note.tags.remove(at);
        assert forall|i: int| 0 <= i < rest.len() implies rest[i] != tag by {
            let from = if i < at { i } else { i + 1 };
            assert(rest[i] == note.tags[from]);
        }
        assert forall|i: int, j: int|
            0 <= i < rest.len() && 0 <= j < rest.len() && i != j implies rest[i] != rest[j] by {
            let a = if i < at { i } else { i + 1 };
            let b = if j < at { j } else { j + 1 };
            assert(rest[i] == note.tags[a] && rest[j] == note.tags[b]);
        }
    }
}

/// Tells whether `query` is part of `content` or of one of `tags`, letter for
/// letter.
pub fn found_in_texts(content: &str, tags: &Vec<String>, query: &str) -> (r: bool)
    ensures
        r == found_in(content@, texts(tags@), query@),
{
    if contains_text(content, query) {
        return true;
    }
    let mut i: usize = 0;
    while i < tags.len()
        invariant
            i <= tags.len(),
            !is_substring(query@, content@),
            forall|k: int| 0 <= k < i ==> !is_substring(query@, #[trigger] texts(tags@)[k]),
        decreases tags.len() - i,
    {
        if contains_text(tags[i].as_str(), query) {
            assert(is_substring(query@, texts(tags@)[i as int]));
            return true;
        }
        i += 1;
    }
    false
}

/// A note.
#[derive(Debug)]
pub struct Note {
    id: String,
    content: String,
    created_at: Timestamp,
    updated_at: Timestamp,
    tags: Vec<String>,
}

impl View for Note {
    type V = NoteView;

    closed spec fn view(&self) -> NoteView {
        NoteView {
            id: self.id@,
            content: self.content@,
            created_at: self.created_at,
            updated_at: self.updated_at,
            tags: texts(self.tags@),
        }
    }
}

impl Note {
    #[verifier::type_invariant]
    spec fn inv(self) -> bool {
        self@.wf()
    }

    /// Makes a note of `content` at the current instant, with an identifier
    /// drawn from that instant and no tags.
    pub fn new(content: String) -> (note: Note)
        ensures
            note@ == NoteView::created(content@, note@.created_at),
    {
        Note::created(content, Timestamp::now())
    }

    /// Makes a note of `content` at the instant `now`.
    pub fn created(content: String, now: Timestamp) -> (note: Note)
        ensures
            note@ == NoteView::created(content@, now),
    {
        let id = match now.nanos_since_epoch() {
            Some(nanos) => decimal_string(nanos),
            None => decimal_string(0),
        };
        let note = Note { id, content, created_at: now, updated_at: now, tags: Vec::new() };
        assert(note@.tags =~= Seq::empty());
        note
    }

    /// Puts a note together from its parts, as they come from storage. There
    /// is no such note where the last change stands before the making or a tag
    /// occurs twice.
    pub fn from_parts(
        id: String,
        content: String,
        created_at: Timestamp,
        updated_at: Timestamp,
        tags: Vec<String>,
    ) -> (r: Option<Note>)
        ensures
            r is Some <==> (NoteView {
                id: id@,
                content: content@,
                created_at,
                updated_at,
                tags: texts(tags@),
            }).wf(),
            r matches Some(note) ==> note@ == (NoteView {
                id: id@,
                content: content@,
                created_at,
                updated_at,
                tags: texts(tags@),
            }),
    {
        if created_at.at_or_before(&updated_at) && all_distinct(&tags) {
            Some(Note { id, content, created_at, updated_at, tags })
        } else {
            None
        }
    }

    /// The identifier, which never changes.
    pub fn id(&self) -> (r: &String)
        ensures
            r@ == self@.id,
    {
        &self.id
    }

    /// The text.
    pub fn content(&self) -> (r: &String)
        ensures
            r@ == self@.content,
    {
        &self.content
    }

    /// The instant of the making, which never changes.
    pub fn created_at(&self) -> (r: Timestamp)
        ensures
            r == self@.created_at,
            r.spec_at_or_before(self@.updated_at),
    {
        proof {
            use_type_invariant(self);
        }
        self.created_at
    }

    /// The instant of the last change.
    pub fn updated_at(&self) -> (r: Timestamp)
        ensures
            r == self@.updated_at,
            self@.created_at.spec_at_or_before(r),
    {
        proof {
            use_type_invariant(self);
        }
        self.updated_at
    }

    /// The tags, in the order in which they were added, none of them twice.
    pub fn tags(&self) -> (r: &Vec<String>)
        ensures
            texts(r@) == self@.tags,
            texts(r@).no_duplicates(),
    {
        proof {
            use_type_invariant(self);
        }
        &self.tags
    }

    /// Replaces the text and marks the note as changed now.
    pub fn update_content(&mut self, content: String)
        ensures
            final(self)@.wf(),
            final(self)@.content == content@,
            final(self)@ == old(self)@.with_content(content@, final(self)@.updated_at),
    {
        self.update_content_at(content, Timestamp::now());
    }

    /// Replaces the text and marks the note as changed at `now`.
    pub fn update_content_at(&mut self, content: String, now: Timestamp)
        ensures
            final(self)@.wf(),
            final(self)@ == old(self)@.with_content(content@, now),
    {
        proof {
            use_type_invariant(&*self);
        }
        let at = self.created_at.later(now);
        self.content = content;
        self.updated_at = at;
    }

    /// Adds `tag` after the others and marks the note as changed now; does
    /// nothing where the note has the tag already.
    pub fn add_tag(&mut self, tag: String)
        ensures
            final(self)@.wf(),
            final(self)@.tags.contains(tag@),
            old(self)@.tags.contains(tag@) ==> final(self)@ == old(self)@,
            final(self)@ == old(self)@.with_tag(tag@, final(self)@.updated_at),
    {
        proof {
            use_type_invariant(&*self);
        }
        if !holds_text(&self.tags, tag.as_str()) {
            self.add_tag_at(tag, Timestamp::now());
        }
    }

    /// Adds `tag` after the others and marks the note as changed at `now`; does
    /// nothing where the note has the tag already.
    pub fn add_tag_at(&mut self, tag: String, now: Timestamp)
        ensures
            final(self)@.wf(),
            final(self)@.tags.contains(tag@),
            final(self)@ == old(self)@.with_tag(tag@, now),
    {
        proof {
            use_type_invariant(&*self);
        }
        if !holds_text(&self.tags, tag.as_str()) {
            let at = self.created_at.later(now);
            let ghost before = texts(self.tags@);
            let mut tags: Vec<String> = Vec::new();
            core::mem::swap(&mut self.tags, &mut tags);
            tags.push(tag);
            assert(texts(tags@) =~= before.push(tag@));
            assert(before.push(tag@)[before.len() as int] == tag@);
            self.tags = tags;
            self.updated_at = at;
        }
    }

    /// Takes `tag` away and marks the note as changed now; does nothing where
    /// the note does not have the tag.
    pub fn remove_tag(&mut self, tag: &str)
        ensures
            final(self)@.wf(),
            !final(self)@.tags.contains(tag@),
            !old(self)@.tags.contains(tag@) ==> final(self)@ == old(self)@,
            final(self)@ == old(self)@.without_tag(tag@, final(self)@.updated_at),
    {
        proof {
            use_type_invariant(&*self);
        }
        if holds_text(&self.tags, tag) {
            self.remove_tag_at(tag, Timestamp::now());
        }
    }

    /// Takes `tag` away and marks the note as changed at `now`; does nothing
    /// where the note does not have the tag.
    pub fn remove_tag_at(&mut self, tag: &str, now: Timestamp)
        ensures
            final(self)@.wf(),
            !final(self)@.tags.contains(tag@),
            final(self)@ == old(self)@.without_tag(tag@, now),
    {
        proof {
            use_type_invariant(&*self);
        }
        match position_of(&self.tags, tag) {
            Some(at) => {
                let moment = self.created_at.later(now);
                let ghost before = texts(self.tags@);
                let mut tags: Vec<String> = Vec::new();
                core::mem::swap(&mut self.tags, &mut tags);
                tags.remove(at);
                assert(texts(tags@) =~= before.remove(at as int));
                self.tags = tags;
                self.updated_at = moment;
            },
            None => {},
        }
    }

    /// Tells whether `query`, without regard to case, is part of the text or
    /// of a tag. The empty query is part of every text.
    pub fn matches_search(&self, query: &str) -> (r: bool)
        ensures
            r == self@.matches(query@),
            query@.len() == 0 ==> r,
    {
        let wanted = query.to_lowercase();
        let content = self.content.as_str().to_lowercase();
        let tags = lowered_texts(&self.tags);
        proof {
            if query@.len() == 0 {
                assert(content@.subrange(0, 0) =~= wanted@);
                assert(occurs_at(wanted@, content@, 0));
            }
        }
        found_in_texts(content.as_str(), &tags, wanted.as_str())
    }

    /// The text cut to its first `max_length` characters and marked with an
    /// ellipsis, or the whole text where it is no longer than that.
    pub fn preview(&self, max_length: usize) -> (r: String)
        ensures
            r@ == self@.preview(max_length as nat),
            self@.content.len() <= max_length ==> r@ == self@.content,
    {
        let content = self.content.as_str();
        if content.unicode_len() <= max_length {
            self.content.clone()
        } else {
            let mut out = content.substring_char(0, max_length).to_owned();
            out.push('.');
            out.push('.');
            out.push('.');
            out
        }
    }
}

impl Clone for Note {
    /// A copy with the same identifier, text, instants and tags.
    fn clone(&self) -> (r: Note)
        ensures
            r@ == self@,
    {
        proof {
            use_type_invariant(self);
        }
        Note {
            id: self.id.clone(),
            content: self.content.clone(),
            created_at: self.created_at,
            updated_at: self.updated_at,
            tags: copy_texts(&self.tags),
        }
    }
}

} // verus!
