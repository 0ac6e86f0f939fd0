//! The two editors of the interface and the bridge between their content
//! and the text of a request: a single-line input for names and URLs, and
//! the multi-line editor for bodies.

use crate::text::{
    join_lines, lemma_join_of_lines, newline, no_carriage_return_before_newline, spec_join,
    spec_lines, split_lines, without_final_newline,
};
use vstd::prelude::*;

verus! {

/// A single-line text input.
#[derive(Debug)]
pub struct TextInput {
    pub text: String,
}

impl View for TextInput {
    type V = Seq<char>;

    open spec fn view(&self) -> Seq<char> {
        self.text@
    }
}

impl TextInput {
    /// An input without text.
    pub fn new() -> (input: TextInput)
        ensures
            input@ == Seq::<char>::empty(),
    {
        TextInput { text: String::new() }
    }

    /// Clears the text.
    pub fn reset_input(&mut self)
        ensures
            final(self)@ == Seq::<char>::empty(),
    {
        self.text = String::new();
    }

    /// Enters `text` behind what the input holds.
    pub fn enter_str(&mut self, text: &str)
        ensures
            final(self)@ == old(self)@ + text@,
    {
        self.text.append(text);
    }
}

/// The multi-line editor for the body of a request: a
/// `tui_textarea::TextArea`. The verifier does not look inside it; what it
/// holds is known through `editor_lines` alone.
#[verifier::external_body]
#[derive(Debug)]
pub struct BodyEditor {
    area: tui_textarea::TextArea<'static>,
}

/// The lines that the text area of `editor` holds, in their order. It has
/// no definition: `editor_from_lines` and `editor_to_lines` say what the
/// constructor and the accessor of the text area make of it.
pub uninterp spec fn editor_lines(editor: BodyEditor) -> Seq<Seq<char>>;

impl View for BodyEditor {
    type V = Seq<Seq<char>>;

    open spec fn view(&self) -> Seq<Seq<char>> {
        editor_lines(*self)
    }
}

/// Calls `tui_textarea::TextArea::new`. Believed without proof: the new
/// text area holds the lines that it is given, in their order, and one
/// empty line where it is given none.
#[verifier::external_body]
fn editor_from_lines(lines: Vec<String>) -> (editor: BodyEditor)
    ensures
        editor_lines(editor) == spec_shown_lines(lines.deep_view()),
{
    BodyEditor { area: tui_textarea::TextArea::new(lines) }
}

/// Calls `tui_textarea::TextArea::lines`. Believed without proof: it hands
/// out the lines that the text area holds, as they are.
#[verifier::external_body]
fn editor_to_lines(editor: &BodyEditor) -> (lines: &[String])
    ensures
        lines.deep_view() == editor_lines(*editor),
{
    editor.area.lines()
}

/// What an editor shows that was given `lines`: the lines, or one empty
/// line where there are none.
pub open spec fn spec_shown_lines(lines: Seq<Seq<char>>) -> Seq<Seq<char>> {
    if lines.len() == 0 {
        seq![Seq::<char>::empty()]
    } else {
        lines
    }
}

/// The lines of an editor into which `text` was loaded.
pub open spec fn spec_load(text: Seq<char>) -> Seq<Seq<char>> {
    spec_shown_lines(spec_lines(text))
}

/// The text that is extracted from an editor that holds `lines`.
pub open spec fn spec_extract(lines: Seq<Seq<char>>) -> Seq<char> {
    spec_join(lines, newline())
}

impl BodyEditor {
    /// An editor that holds one empty line.
    pub fn new() -> (editor: BodyEditor)
        ensures
            editor@ == seq![Seq::<char>::empty()],
    {
        editor_from_lines(Vec::new())
    }

    /// An editor that holds `lines`, or one empty line where `lines` is
    /// empty.
    pub fn with_lines(lines: Vec<String>) -> (editor: BodyEditor)
        ensures
            editor@ == spec_shown_lines(lines.deep_view()),
    {
        editor_from_lines(lines)
    }

    /// An editor whose whole content is `text`, split into its lines.
    pub fn load(text: &str) -> (editor: BodyEditor)
        ensures
            editor@ == spec_load(text@),
    {
        editor_from_lines(split_lines(text))
    }

    /// The lines that the editor holds.
    pub fn lines(&self) -> (lines: Vec<String>)
        ensures
            lines.deep_view() == self@,
    {
        let held = editor_to_lines(self);
        let mut lines: Vec<String> = Vec::new();
        let mut i: usize = 0;
        while i < held.len()
            invariant
                i <= held.len(),
                lines.deep_view() == held.deep_view().take(i as int),
            decreases held.len() - i,
        {
            let ghost before = lines.deep_view();
            let line = held[i].clone();
            lines.push(line);
            assert(lines.deep_view() == before.push(line@));
            i += 1;
        }
        lines
    }

    /// The content of the editor as one text: its lines with a single
    /// newline between each two.
    pub fn extract(&self) -> (text: String)
        ensures
            text@ == spec_extract(self@),
    {
        join_lines(editor_to_lines(self))
    }
}

/// A text that ends in no newline, in which no newline follows a carriage
/// return, and that has at least one character comes back from the editor
/// as it was loaded.
pub proof fn lemma_load_extract_round_trip(text: Seq<char>)
    requires
        text.len() > 0,
        text.last() != '\n',
        no_carriage_return_before_newline(text),
    ensures
        spec_extract(spec_load(text)) == text,
{
    lemma_join_of_lines(text);
}

/// The empty text comes back from the editor as the empty text.
pub proof fn lemma_load_extract_empty()
    ensures
        spec_extract(spec_load(Seq::<char>::empty())) == Seq::<char>::empty(),
{
}

/// What comes back from the editor is the text that was loaded without
/// its final newline, if it had one: a text with one final newline and the
/// same text without it come back alike.
pub proof fn lemma_load_extract_drops_final_newline(text: Seq<char>)
    requires
        no_carriage_return_before_newline(text),
    ensures
        spec_extract(spec_load(text)) == without_final_newline(text),
{
    lemma_join_of_lines(text);
}

} // verus!
