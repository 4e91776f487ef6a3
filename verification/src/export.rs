//! The notes as one document for other programs.

use crate::note::NoteView;
use crate::strings::{join_texts, joined, texts};
use vstd::prelude::*;
use vstd::string::StringExecFns;

verus! {

/// The form of an export.
#[derive(Debug, Clone, Copy, PartialEq, Eq, Structural)]
pub enum ExportFormat {
    /// The list as a JSON document.
    Json,
    /// A Markdown document with one section for each note.
    Markdown,
}

/// The section of one note in a Markdown export: a heading with the making of
/// the note as `stamp`, the text, the tags in one line where there are any,
/// and a rule.
pub open spec fn markdown_section(
    stamp: Seq<char>,
    content: Seq<char>,
    tags: Seq<Seq<char>>,
) -> Seq<char> {
    let heading = "## Note ("@ + stamp + ")\n\n"@;
    let body = content + "\n\n"@;
    let labels = if tags.len() > 0 {
        "**Tags:** "@ + joined(tags, ", "@) + "\n\n"@
    } else {
        Seq::empty()
    };
    heading + body + labels + "---\n\n"@
}

/// The sections of `notes`, one after the other.
pub open spec fn markdown_sections(notes: Seq<NoteView>) -> Seq<char>
    decreases notes.len(),
{
    if notes.len() == 0 {
        Seq::empty()
    } else {
        markdown_sections(notes.drop_last()) + markdown_section(
            notes.last().created_at.spec_date_time(),
            notes.last().content,
            notes.last().tags,
        )
    }
}

/// The Markdown export of `notes`: a title, then one section for each note.
pub open spec fn markdown(notes: Seq<NoteView>) -> Seq<char> {
    "# Turbo Notes Export\n\n"@ + markdown_sections(notes)
}

/// Writes the section of one note in a Markdown export, from the making of
/// the note as `stamp`, its text and its tags.
pub fn markdown_section_text(stamp: &str, content: &str, tags: &Vec<String>) -> (r: String)
    ensures
        r@ == markdown_section(stamp@, content@, texts(tags@)),
{
    let mut out = String::new();
    out.append("## Note (");
    out.append(stamp);
    out.append(")\n\n");
    out.append(content);
    out.append("\n\n");
    if tags.len() > 0 {
        let labels = join_texts(tags, ", ");
        out.append("**Tags:** ");
        out.append(labels.as_str());
        out.append("\n\n");
    }
    out.append("---\n\n");
    out
}

} // verus!
