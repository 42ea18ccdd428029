//! The styles in which the rows of a listing are drawn.

use vstd::prelude::*;

verus! {

/// How a piece of text is to be drawn.
#[derive(Clone, Copy, Debug, PartialEq, Eq, Structural)]
pub enum Style {
    /// The name of a file.
    File,
    /// The name of the selected file.
    FileHighlighted,
    /// The name of a directory.
    Directory,
    /// The name of the selected directory.
    DirectoryHighlighted,
    /// The sign of a marked entry.
    Marked,
    /// Text without emphasis.
    Plain,
}

/// A piece of text with its style.
#[derive(Debug, PartialEq, Eq)]
pub struct Span {
    pub content: String,
    pub style: Style,
}

/// What a [`Span`] stands for.
pub struct SpanView {
    pub content: Seq<char>,
    pub style: Style,
}

impl View for Span {
    type V = SpanView;

    open spec fn view(&self) -> SpanView {
        SpanView { content: self.content@, style: self.style }
    }
}

impl Span {
    /// A piece of text in a style.
    pub fn styled(content: &str, style: Style) -> (span: Span)
        ensures
            span@ == (SpanView { content: content@, style }),
    {
        Span { content: content.to_owned(), style }
    }

    /// A piece of text without emphasis.
    pub fn raw(content: &str) -> (span: Span)
        ensures
            span@ == (SpanView { content: content@, style: Style::Plain }),
    {
        Span { content: content.to_owned(), style: Style::Plain }
    }
}

/// The spans of a row, each taken by its view.
pub open spec fn spans(row: Seq<Span>) -> Seq<SpanView> {
    row.map_values(|span: Span| span@)
}

/// The style of a file's name.
pub open spec fn file_style(highlight: bool) -> Style {
    if highlight {
        Style::FileHighlighted
    } else {
        Style::File
    }
}

/// The style of a directory's name.
pub open spec fn directory_style(highlight: bool) -> Style {
    if highlight {
        Style::DirectoryHighlighted
    } else {
        Style::Directory
    }
}

/// The style of a file's name.
pub fn file(highlight: bool) -> (style: Style)
    ensures
        style == file_style(highlight),
{
    match highlight {
        true => Style::FileHighlighted,
        false => Style::File,
    }
}

/// The style of a directory's name.
pub fn directory(highlight: bool) -> (style: Style)
    ensures
        style == directory_style(highlight),
{
    match highlight {
        true => Style::DirectoryHighlighted,
        false => Style::Directory,
    }
}

/// The style of the sign that stands before a marked entry.
pub fn marked() -> (style: Style)
    ensures
        style == Style::Marked,
{
    Style::Marked
}

/// The style that ends all emphasis.
pub fn reset() -> (style: Style)
    ensures
        style == Style::Plain,
{
    Style::Plain
}

} // verus!
