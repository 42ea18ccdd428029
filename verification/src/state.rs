//! Panes, their per-directory memory, and the set of panes.

use vstd::prelude::*;
use crate::cursor::{last_index, Place, PAGE};
use crate::entry::{views, Entry, EntryView};
use crate::error::{Error, IoError};
use crate::memory::PathMap;
use crate::path::{parent_of, AbsPath};
use crate::policy::{arrange, lists};
use crate::style::{
    directory, directory_style, file, file_style, marked, reset, spans, Span, SpanView, Style,
};

pub use crate::entry::entry_not_hidden;

verus! {

/// The rows of the terminal that are not available to the listing.
pub const CHROME_ROWS: u16 = 3;

/// The size of the terminal, as the drawing layer reports it.
#[derive(Clone, Copy, Debug, PartialEq, Eq, Structural)]
pub struct Rect {
    pub x: u16,
    pub y: u16,
    pub width: u16,
    pub height: u16,
}

/// What a pane remembers of a directory it has visited.
pub struct Buffer {
    pub cursor: usize,
    pub scroll: usize,
    pub show_hidden: bool,
    pub marked: PathMap<bool>,
}

/// What a [`Buffer`] stands for.
pub struct BufferView {
    pub cursor: int,
    pub scroll: int,
    pub show_hidden: bool,
    /// The marked paths.
    pub marked: Set<Seq<Seq<char>>>,
}

impl BufferView {
    /// What is remembered of a directory that was never visited.
    pub open spec fn fresh() -> BufferView {
        BufferView { cursor: 0, scroll: 0, show_hidden: false, marked: Set::empty() }
    }
}

/// The paths that a map of marks holds as marked.
pub open spec fn marks_of(marked: Map<Seq<Seq<char>>, bool>) -> Set<Seq<Seq<char>>> {
    Set::new(|path: Seq<Seq<char>>| marked.contains_key(path) && marked[path])
}

/// A set of marks after the mark of one path was flipped.
pub open spec fn flipped(marks: Set<Seq<Seq<char>>>, path: Seq<Seq<char>>) -> Set<Seq<Seq<char>>> {
    if marks.contains(path) {
        marks.remove(path)
    } else {
        marks.insert(path)
    }
}

impl View for Buffer {
    type V = BufferView;

    open spec fn view(&self) -> BufferView {
        BufferView {
            cursor: self.cursor as int,
            scroll: self.scroll as int,
            show_hidden: self.show_hidden,
            marked: marks_of(self.marked@),
        }
    }
}

impl Default for Buffer {
    fn default() -> (buffer: Buffer)
        ensures
            buffer@ == BufferView::fresh(),
    {
        let buffer = Buffer { cursor: 0, scroll: 0, show_hidden: false, marked: PathMap::new() };
        assert(buffer@.marked =~= Set::empty());
        buffer
    }
}

impl Buffer {
    /// Marks a path that is not marked, and takes the mark from one that is.
    pub fn flip(&mut self, path: AbsPath)
        ensures
            final(self)@ == (BufferView {
                marked: flipped(old(self)@.marked, path@),
                ..old(self)@
            }),
    {
        match self.marked.get_mut(&path) {
            Some(mark) => {
                *mark = !*mark;
            },
            None => {
                self.marked.insert(path, true);
            },
        }
        assert(self@.marked =~= flipped(old(self)@.marked, path@));
    }

    /// Whether a path is marked.
    pub fn is_marked(&self, path: &AbsPath) -> (marked: bool)
        ensures
            marked == self@.marked.contains(path@),
    {
        match self.marked.get(path) {
            Some(mark) => *mark,
            None => false,
        }
    }
}

/// A memory, each buffer taken by its view.
pub open spec fn views_of(buffers: Map<Seq<Seq<char>>, Buffer>) -> Map<Seq<Seq<char>>, BufferView> {
    buffers.map_values(|buffer: Buffer| buffer@)
}

/// To take the views commutes with setting a key.
pub proof fn lemma_views_of_insert(
    buffers: Map<Seq<Seq<char>>, Buffer>,
    dir: Seq<Seq<char>>,
    buffer: Buffer,
)
    ensures
        views_of(buffers.insert(dir, buffer)) == views_of(buffers).insert(dir, buffer@),
{
    assert(views_of(buffers.insert(dir, buffer)) =~= views_of(buffers).insert(dir, buffer@));
}

/// The row of an entry as it is drawn: a plus sign in the style of marks
/// before a marked entry and a blank before any other; the name, in the style
/// of its kind; and behind the name of a directory a plain slash.
pub open spec fn row_of(entry: EntryView, marked: bool, highlight: bool) -> Seq<SpanView> {
    let sign = if marked {
        SpanView { content: seq!['+'], style: Style::Marked }
    } else {
        SpanView { content: seq![' '], style: Style::Plain }
    };
    if entry.is_dir {
        seq![
            sign,
            SpanView { content: entry.name, style: directory_style(highlight) },
            SpanView { content: seq!['/'], style: Style::Plain },
        ]
    } else {
        seq![sign, SpanView { content: entry.name, style: file_style(highlight) }]
    }
}

/// The rows that a terminal leaves to the listing, less one: the highest row
/// that the cursor reaches.
pub open spec fn viewport_height(size: Rect) -> int {
    if size.height >= CHROME_ROWS {
        size.height - CHROME_ROWS
    } else {
        0
    }
}

/// One pane: a directory, its listing, and where in the listing the pane looks.
pub struct Context {
    /// The selected row of the window.
    pub cursor: usize,
    /// The place in the listing of the window's first row.
    pub scroll: usize,
    pub terminal_size: Rect,
    pub current_dir: AbsPath,
    /// The listing of `current_dir`, as it was when it was last read.
    pub directory: Vec<Entry>,
    /// What the pane remembers of the directories it has visited.
    pub buffers: PathMap<Buffer>,
}

impl Context {
    /// Where the pane looks.
    pub open spec fn place(&self) -> Place {
        Place { cursor: self.cursor as int, scroll: self.scroll as int }
    }

    /// The highest row of the window.
    pub open spec fn rows(&self) -> int {
        viewport_height(self.terminal_size)
    }

    /// The listing, each entry taken by its view.
    pub open spec fn entries(&self) -> Seq<EntryView> {
        views(self.directory@)
    }

    /// What the pane remembers, by directory.
    pub open spec fn memory(&self) -> Map<Seq<Seq<char>>, BufferView> {
        views_of(self.buffers@)
    }

    /// Whether the pane has a memory of the directory it is in.
    pub open spec fn remembers(&self) -> bool {
        self.memory().contains_key(self.current_dir@)
    }

    /// What the pane remembers of the directory it is in: nothing but the
    /// defaults if it has no memory of it.
    pub open spec fn recalled(&self) -> BufferView {
        if self.remembers() {
            self.memory()[self.current_dir@]
        } else {
            BufferView::fresh()
        }
    }

    /// What the pane remembers of the directory it is in once it has saved
    /// where it looks.
    pub open spec fn saved(&self) -> BufferView {
        BufferView { cursor: self.cursor as int, scroll: self.scroll as int, ..self.recalled() }
    }

    /// What the pane remembers of the directory it is in once it has saved
    /// where it looks and flipped the mark of a path.
    pub open spec fn marked_anew(&self, path: Seq<Seq<char>>) -> BufferView {
        BufferView { marked: flipped(self.recalled().marked, path), ..self.saved() }
    }

    /// Whether the pane selects an entry.
    pub open spec fn has_target(&self) -> bool {
        self.place().absolute() < self.directory@.len()
    }

    /// The entry at the selected place.
    pub open spec fn selected(&self) -> Entry {
        self.directory@[self.place().absolute()]
    }

    /// Whether the pane selects a directory.
    pub open spec fn targets_dir(&self) -> bool {
        self.has_target() && self.selected().is_dir
    }

    /// The rows of the listing that the window shows.
    pub open spec fn window(&self) -> Seq<Entry> {
        let len = self.directory@.len() as int;
        let start = if self.scroll < len {
            self.scroll as int
        } else {
            len
        };
        let end = if self.scroll + self.rows() + 1 < len {
            self.scroll + self.rows() + 1
        } else {
            len
        };
        self.directory@.subrange(start, end)
    }

    /// A pane in the directory `current_dir`, of which it remembers the
    /// defaults, with an empty listing.
    pub fn new(current_dir: AbsPath) -> (pane: Context)
        ensures
            pane.place() == (Place { cursor: 0, scroll: 0 }),
            pane.terminal_size == (Rect { x: 0, y: 0, width: 0, height: 0 }),
            pane.current_dir@ == current_dir@,
            pane.directory@.len() == 0,
            pane.memory() == Map::<Seq<Seq<char>>, BufferView>::empty().insert(
                current_dir@,
                BufferView::fresh(),
            ),
    {
        let mut pane = Context {
            cursor: 0,
            scroll: 0,
            terminal_size: Rect { x: 0, y: 0, width: 0, height: 0 },
            current_dir,
            directory: Vec::new(),
            buffers: PathMap::new(),
        };
        assert(pane.memory() =~= Map::<Seq<Seq<char>>, BufferView>::empty());
        pane.save_buffer();
        pane
    }

    /// The directory that the pane is in.
    pub fn current_dir(&self) -> (dir: &AbsPath)
        ensures
            dir == self.current_dir,
    {
        &self.current_dir
    }

    /// The highest row of the window: the rows of the terminal less those
    /// that the listing cannot use.
    pub fn height(&self) -> (rows: usize)
        ensures
            rows == self.rows(),
    {
        self.terminal_size.height.saturating_sub(CHROME_ROWS) as usize
    }

    /// Whether hidden entries are shown in the directory that the pane is in.
    pub fn show_hidden(&self) -> (show: bool)
        ensures
            show == self.recalled().show_hidden,
    {
        match self.buffers.get(&self.current_dir) {
            Some(buffer) => buffer.show_hidden,
            None => false,
        }
    }

    /// Whether a path is marked in the directory that the pane is in.
    pub fn is_marked(&self, path: &AbsPath) -> (marked: bool)
        ensures
            marked == self.recalled().marked.contains(path@),
    {
        match self.buffers.get(&self.current_dir) {
            Some(buffer) => buffer.is_marked(path),
            None => false,
        }
    }

    /// What the pane remembers of the directory it is in, for changing it.
    pub fn buffer_mut(&mut self) -> (buffer: Option<&mut Buffer>)
        ensures
            match buffer {
                Some(buffer) => {
                    &&& old(self).remembers()
                    &&& buffer@ == old(self).recalled()
                    &&& final(self).memory() == old(self).memory().insert(
                        old(self).current_dir@,
                        final(buffer)@,
                    )
                },
                None => !old(self).remembers() && final(self).memory() == old(self).memory(),
            },
            *final(self) == (Context { buffers: final(self).buffers, ..*old(self) }),
    {
        proof {
            assert forall|buffer: Buffer| #[trigger]
                views_of(self.buffers@.insert(self.current_dir@, buffer)) == views_of(
                    self.buffers@,
                ).insert(self.current_dir@, buffer@) by {
                lemma_views_of_insert(self.buffers@, self.current_dir@, buffer);
            }
        }
        self.buffers.get_mut(&self.current_dir)
    }

    /// Remembers where the pane looks in the directory it is in. What else is
    /// remembered of the directory stays; of a directory that was not
    /// remembered, the defaults are.
    pub fn save_buffer(&mut self)
        ensures
            final(self).memory() == old(self).memory().insert(
                old(self).current_dir@,
                old(self).saved(),
            ),
            *final(self) == (Context { buffers: final(self).buffers, ..*old(self) }),
    {
        let cursor = self.cursor;
        let scroll = self.scroll;
        match self.buffers.get_mut(&self.current_dir) {
            Some(buffer) => {
                buffer.cursor = cursor;
                buffer.scroll = scroll;
            },
            None => {
                let state = Buffer { cursor, scroll, ..Buffer::default() };
                self.buffers.insert(self.current_dir.clone(), state);
            },
        }
        assert(self.memory() =~= old(self).memory().insert(
            old(self).current_dir@,
            old(self).saved(),
        ));
    }

    /// Looks where the pane looked when it last saved its place in the
    /// directory it is in: at the first entry if it has no memory of the
    /// directory, of which it then remembers the defaults.
    pub fn restore_buffer(&mut self)
        ensures
            final(self).place() == (Place {
                cursor: old(self).recalled().cursor,
                scroll: old(self).recalled().scroll,
            }),
            final(self).memory() == old(self).memory().insert(
                old(self).current_dir@,
                old(self).recalled(),
            ),
            *final(self) == (Context {
                cursor: final(self).cursor,
                scroll: final(self).scroll,
                buffers: final(self).buffers,
                ..*old(self)
            }),
    {
        match self.buffers.get(&self.current_dir) {
            Some(state) => {
                self.cursor = state.cursor;
                self.scroll = state.scroll;
                assert(self.memory() =~= old(self).memory().insert(
                    old(self).current_dir@,
                    old(self).recalled(),
                ));
            },
            None => {
                self.cursor = 0;
                self.scroll = 0;
                self.save_buffer();
            },
        }
    }

    /// The selected entry, if the pane selects one.
    pub fn target(&self) -> (entry: Option<&Entry>)
        ensures
            match entry {
                Some(entry) => self.has_target() && *entry == self.selected(),
                None => !self.has_target(),
            },
    {
        let len = self.directory.len();
        if self.scroll < len && self.cursor < len - self.scroll {
            Some(&self.directory[self.scroll + self.cursor])
        } else {
            None
        }
    }

    /// The name of the selected entry, if that is a directory.
    pub fn target_dir(&self) -> (name: Result<String, Error>)
        ensures
            match name {
                Ok(name) => self.targets_dir() && name@ == self.selected()@.name,
                Err(error) => !self.targets_dir() && error == Error::NotADirectory,
            },
    {
        match self.target() {
            Some(target) => {
                if target.is_dir {
                    Ok(target.name.clone())
                } else {
                    Err(Error::NotADirectory)
                }
            },
            None => Err(Error::NotADirectory),
        }
    }

    /// The rows of the listing that the window shows.
    pub fn view(&self) -> (rows: &[Entry])
        ensures
            rows@ == self.window(),
    {
        let len = self.directory.len();
        let start = if self.scroll < len {
            self.scroll
        } else {
            len
        };
        let rows = self.height();
        let end = if rows < len - start {
            start + rows + 1
        } else {
            len
        };
        vstd::slice::slice_subrange(self.directory.as_slice(), start, end)
    }

    /// Brings the place back into the listing.
    fn settle(&mut self)
        ensures
            final(self).place() == old(self).place().settled(
                old(self).rows(),
                old(self).directory@.len() as int,
            ),
            *final(self) == (Context {
                cursor: final(self).cursor,
                scroll: final(self).scroll,
                ..*old(self)
            }),
    {
        let last = self.directory.len().saturating_sub(1);
        if self.scroll > last {
            self.scroll = last;
        }
        let rows = self.height();
        let room = if rows < last - self.scroll {
            rows
        } else {
            last - self.scroll
        };
        if self.cursor > room {
            self.cursor = room;
        }
    }

    /// Makes sure that the pane selects an entry, after the listing may have
    /// become shorter: a place that selects none becomes the last row that
    /// the window shows from the top of the listing.
    pub fn clamp_cursor(&mut self)
        ensures
            final(self).place() == old(self).place().clamped(
                old(self).rows(),
                old(self).directory@.len() as int,
            ),
            *final(self) == (Context {
                cursor: final(self).cursor,
                scroll: final(self).scroll,
                ..*old(self)
            }),
    {
        if self.target().is_none() {
            let last = self.directory.len().saturating_sub(1);
            let rows = self.height();
            self.scroll = 0;
            self.cursor = if rows < last {
                rows
            } else {
                last
            };
        }
    }

    /// Moves the cursor up by `amount` rows.
    pub fn cursor_up(&mut self, amount: usize)
        ensures
            final(self).place() == old(self).place().up(
                amount as int,
                old(self).rows(),
                old(self).directory@.len() as int,
            ),
            0 <= final(self).place().absolute() <= last_index(old(self).directory@.len() as int),
            *final(self) == (Context {
                cursor: final(self).cursor,
                scroll: final(self).scroll,
                ..*old(self)
            }),
    {
        if self.cursor < amount && self.scroll > 0 {
            self.scroll = self.scroll.saturating_sub(PAGE);
            self.cursor = self.cursor.saturating_add(PAGE);
        } else {
            self.cursor = self.cursor.saturating_sub(amount);
        }
        self.settle();
    }

    /// Moves the cursor down by `amount` rows.
    pub fn cursor_down(&mut self, amount: usize)
        ensures
            final(self).place() == old(self).place().down(
                amount as int,
                old(self).rows(),
                old(self).directory@.len() as int,
            ),
            0 <= final(self).place().absolute() <= last_index(old(self).directory@.len() as int),
            *final(self) == (Context {
                cursor: final(self).cursor,
                scroll: final(self).scroll,
                ..*old(self)
            }),
    {
        let rows = self.height();
        if amount > rows || self.cursor > rows - amount {
            self.cursor = self.cursor.saturating_sub(PAGE);
            self.scroll = self.scroll.saturating_add(PAGE);
            assert(self.directory@.len() <= usize::MAX) by {
                vstd::std_specs::vec::axiom_spec_len(&self.directory);
            }
        } else {
            self.cursor = self.cursor + amount;
        }
        self.settle();
    }

    /// The listing that the pane shows of what was found in its directory.
    pub fn read(&self, raw: Vec<Entry>) -> (listing: Vec<Entry>)
        ensures
            lists(views(listing@), views(raw@), self.recalled().show_hidden),
    {
        arrange(raw, self.show_hidden())
    }

    /// Takes what a reading of the pane's directory gave: the listing of what
    /// was found becomes the pane's listing. A failed reading is handed on,
    /// and the pane stays as it is.
    pub fn read_directory(&mut self, found: Result<Vec<Entry>, IoError>) -> (result: Result<
        (),
        Error,
    >)
        ensures
            match found {
                Ok(raw) => {
                    &&& result.is_ok()
                    &&& lists(final(self).entries(), views(raw@), old(self).recalled().show_hidden)
                    &&& *final(self) == (Context {
                        directory: final(self).directory,
                        ..*old(self)
                    })
                },
                Err(error) => {
                    &&& result == Err::<(), Error>(Error::Io(error))
                    &&& *final(self) == *old(self)
                },
            },
    {
        match found {
            Ok(raw) => {
                self.directory = self.read(raw);
                Ok(())
            },
            Err(error) => Err(Error::Io(error)),
        }
    }

    /// The rows that the window shows, as they are drawn: row by row a sign
    /// that tells whether the entry is marked, then the entry's name, which
    /// is highlighted in the row of the cursor, then a slash if the entry is
    /// a directory.
    pub fn listing(&self) -> (rows: Vec<Vec<Span>>)
        ensures
            rows@.len() == self.window().len(),
            forall|line: int|
                0 <= line < rows@.len() ==> spans((#[trigger] rows@[line])@) == row_of(
                    self.window()[line]@,
                    self.recalled().marked.contains(self.window()[line]@.path),
                    self.cursor == line,
                ),
    {
        let shown = self.view();
        let mut rows: Vec<Vec<Span>> = Vec::new();
        let mut line: usize = 0;
        while line < shown.len()
            invariant
                shown@ == self.window(),
                line <= shown@.len(),
                rows@.len() == line,
                forall|k: int|
                    0 <= k < line ==> spans((#[trigger] rows@[k])@) == row_of(
                        self.window()[k]@,
                        self.recalled().marked.contains(self.window()[k]@.path),
                        self.cursor == k,
                    ),
            decreases shown@.len() - line,
        {
            let entry = &shown[line];
            let highlight = self.cursor == line;
            let mut items: Vec<Span> = Vec::new();
            proof {
                reveal_strlit("+");
                reveal_strlit(" ");
                reveal_strlit("/");
            }
            if self.is_marked(&entry.path) {
                items.push(Span::styled("+", marked()));
            } else {
                items.push(Span::raw(" "));
            }
            if entry.is_dir {
                items.push(Span::styled(entry.name.as_str(), directory(highlight)));
                items.push(Span::styled("/", reset()));
            } else {
                items.push(Span::styled(entry.name.as_str(), file(highlight)));
            }
            assert(spans(items@) =~= row_of(
                entry@,
                self.recalled().marked.contains(entry@.path),
                highlight,
            )) by {
                assert("+"@ =~= seq!['+']);
                assert(" "@ =~= seq![' ']);
                assert("/"@ =~= seq!['/']);
            }
            rows.push(items);
            line += 1;
        }
        rows
    }

    /// Whether `after` is this pane gone to the directory `dir`, where `raw`
    /// was found: the pane remembers where it looked in the directory it
    /// left, lists what was found under the filter it remembers of `dir`,
    /// and looks where it remembers to have looked there; without a memory
    /// of `dir` it looks at the first entry and remembers the defaults.
    pub open spec fn gone_to(
        &self,
        after: Context,
        dir: Seq<Seq<char>>,
        raw: Seq<EntryView>,
    ) -> bool {
        let kept = self.memory().insert(self.current_dir@, self.saved());
        let found = if kept.contains_key(dir) {
            kept[dir]
        } else {
            BufferView::fresh()
        };
        &&& after.current_dir@ == dir
        &&& after.terminal_size == self.terminal_size
        &&& after.memory() == kept.insert(dir, found)
        &&& after.place() == (Place { cursor: found.cursor, scroll: found.scroll })
        &&& lists(after.entries(), raw, found.show_hidden)
    }

    /// Whether `after` is this pane with the filter of its directory
    /// flipped, where `raw` was found: the pane looks where it looked,
    /// remembers that and the new filter, and lists what was found under
    /// the new filter.
    pub open spec fn flipped_filter(&self, after: Context, raw: Seq<EntryView>) -> bool {
        let flipped = BufferView { show_hidden: !self.recalled().show_hidden, ..self.saved() };
        &&& after.current_dir@ == self.current_dir@
        &&& after.terminal_size == self.terminal_size
        &&& after.memory() == self.memory().insert(self.current_dir@, flipped)
        &&& after.place() == self.place()
        &&& lists(after.entries(), raw, flipped.show_hidden)
    }

    /// Goes to a directory whose reading gave `raw`.
    fn go_to(&mut self, dir: AbsPath, raw: Vec<Entry>)
        ensures
            old(self).gone_to(*final(self), dir@, views(raw@)),
    {
        self.save_buffer();
        self.current_dir = dir;
        self.directory = self.read(raw);
        self.restore_buffer();
    }

    /// Enters the child directory `name` of the pane's directory, of which
    /// `found` is what a reading gave.
    ///
    /// Fails with [`Error::NotADirectory`] unless the pane selects a
    /// directory, and hands on a failed reading; either way the pane stays as
    /// it is.
    pub fn enter_child(&mut self, name: &str, found: Result<Vec<Entry>, IoError>) -> (result:
        Result<(), Error>)
        ensures
            result.is_ok() <==> old(self).targets_dir() && found.is_ok(),
            match result {
                Ok(_) => old(self).gone_to(
                    *final(self),
                    old(self).current_dir@.push(name@),
                    views(found.unwrap()@),
                ),
                Err(error) => {
                    &&& *final(self) == *old(self)
                    &&& error == if old(self).targets_dir() {
                        Error::Io(found.unwrap_err())
                    } else {
                        Error::NotADirectory
                    }
                },
            },
    {
        match self.target() {
            Some(target) => {
                if !target.is_dir {
                    return Err(Error::NotADirectory);
                }
            },
            None => {
                return Err(Error::NotADirectory);
            },
        }
        match found {
            Ok(raw) => {
                let dir = self.current_dir.join(name);
                self.go_to(dir, raw);
                Ok(())
            },
            Err(error) => Err(Error::Io(error)),
        }
    }

    /// Leaves the pane's directory for its parent, of which `found` is what
    /// a reading gave. The root is its own parent.
    ///
    /// Hands on a failed reading, and the pane stays as it is.
    pub fn leave_to_parent(&mut self, found: Result<Vec<Entry>, IoError>) -> (result: Result<
        (),
        Error,
    >)
        ensures
            match found {
                Ok(raw) => result.is_ok() && old(self).gone_to(
                    *final(self),
                    parent_of(old(self).current_dir@),
                    views(raw@),
                ),
                Err(error) => {
                    &&& result == Err::<(), Error>(Error::Io(error))
                    &&& *final(self) == *old(self)
                },
            },
    {
        match found {
            Ok(raw) => {
                let mut dir = self.current_dir.clone();
                dir.pop();
                self.go_to(dir, raw);
                Ok(())
            },
            Err(error) => Err(Error::Io(error)),
        }
    }

    /// Flips the filter of the pane's directory, of which `found` is what a
    /// reading gave.
    ///
    /// Hands on a failed reading, and the pane stays as it is.
    pub fn toggle_hidden(&mut self, found: Result<Vec<Entry>, IoError>) -> (result: Result<
        (),
        Error,
    >)
        ensures
            match found {
                Ok(raw) => result.is_ok() && old(self).flipped_filter(*final(self), views(raw@)),
                Err(error) => {
                    &&& result == Err::<(), Error>(Error::Io(error))
                    &&& *final(self) == *old(self)
                },
            },
    {
        match found {
            Ok(raw) => {
                self.save_buffer();
                match self.buffer_mut() {
                    Some(state) => {
                        state.show_hidden = !state.show_hidden;
                    },
                    None => {},
                }
                self.directory = self.read(raw);
                self.restore_buffer();
                assert(self.memory() =~= old(self).memory().insert(
                    old(self).current_dir@,
                    BufferView {
                        show_hidden: !old(self).recalled().show_hidden,
                        ..old(self).saved()
                    },
                ));
                Ok(())
            },
            Err(error) => Err(Error::Io(error)),
        }
    }

    /// Flips the mark of a path in the directory that the pane is in. The
    /// pane looks where it looked, and remembers that.
    pub fn toggle_mark(&mut self, path: AbsPath)
        ensures
            final(self).memory() == old(self).memory().insert(
                old(self).current_dir@,
                old(self).marked_anew(path@),
            ),
            *final(self) == (Context { buffers: final(self).buffers, ..*old(self) }),
    {
        self.save_buffer();
        match self.buffer_mut() {
            Some(state) => {
                state.flip(path);
            },
            None => {},
        }
        assert(self.memory() =~= old(self).memory().insert(
            old(self).current_dir@,
            old(self).marked_anew(path@),
        ));
    }
}

/// How keys are read.
#[derive(Clone, Copy, Debug, PartialEq, Eq, Structural)]
pub enum Mode {
    /// Keys move the cursor and change directories.
    Normal,
    /// Keys write the text of a command.
    Command,
}

impl Default for Mode {
    fn default() -> (mode: Mode)
        ensures
            mode == Mode::Normal,
    {
        Mode::Normal
    }
}

/// The number of panes.
pub const PANES: usize = 4;

/// The panes of a session, one of which is active, and the mode in which keys
/// are read.
pub struct Views {
    pub mode: Mode,
    /// The number of the active pane.
    pub index: usize,
    /// The text of the command that is being written.
    pub command: String,
    pub contexts: [Context; 4],
}

impl Views {
    /// Whether there is an active pane.
    pub open spec fn has_active(&self) -> bool {
        self.index < PANES
    }

    /// The active pane.
    pub open spec fn active(&self) -> Context {
        self.contexts@[self.index as int]
    }

    /// Whether `after` is this set of panes but for the pane of number `i`.
    pub open spec fn but_pane(&self, after: Views, i: int) -> bool {
        &&& after.mode == self.mode
        &&& after.index == self.index
        &&& after.command == self.command
        &&& forall|k: int| 0 <= k < PANES && k != i ==> after.contexts@[k] == self.contexts@[k]
    }

    /// The panes of a session that starts in the directory `current_dir`, of
    /// which `found` is what a reading gave: all panes are in that directory,
    /// the first is active and lists what was found. A failed reading is
    /// handed on.
    pub fn new(current_dir: AbsPath, found: Result<Vec<Entry>, IoError>) -> (result: Result<
        Views,
        Error,
    >)
        ensures
            match result {
                Ok(panes) => found.is_ok() && panes.mode == Mode::Normal && panes.index == 0
                    && panes.command@ == Seq::<char>::empty() && lists(
                    panes.contexts@[0].entries(),
                    views(found.unwrap()@),
                    false,
                ) && forall|k: int|
                    0 <= k < PANES ==> {
                        let pane = #[trigger] panes.contexts@[k];
                        &&& pane.place() == (Place { cursor: 0, scroll: 0 })
                        &&& pane.current_dir@ == current_dir@
                        &&& pane.memory() == Map::<Seq<Seq<char>>, BufferView>::empty().insert(
                            current_dir@,
                            BufferView::fresh(),
                        )
                        &&& k > 0 ==> pane.directory@.len() == 0
                    },
                Err(error) => found.is_err() && error == Error::Io(found.unwrap_err()),
            },
    {
        match found {
            Ok(raw) => {
                let mut first = Context::new(current_dir.clone());
                first.directory = first.read(raw);
                let second = Context::new(current_dir.clone());
                let third = Context::new(current_dir.clone());
                let fourth = Context::new(current_dir);
                Ok(
                    Views {
                        mode: Mode::Normal,
                        index: 0,
                        command: String::new(),
                        contexts: [first, second, third, fourth],
                    },
                )
            },
            Err(error) => Err(Error::Io(error)),
        }
    }

    /// The active pane, if the number of the active pane is that of a pane.
    pub fn current_context(&mut self) -> (pane: Option<&mut Context>)
        ensures
            match pane {
                Some(pane) => {
                    &&& old(self).has_active()
                    &&& *pane == old(self).active()
                    &&& *final(pane) == final(self).active()
                    &&& old(self).but_pane(*final(self), old(self).index as int)
                },
                None => !old(self).has_active() && *final(self) == *old(self),
            },
    {
        if self.index < PANES {
            Some(&mut self.contexts[self.index])
        } else {
            None
        }
    }

    /// Leaves the writing of a command: the text is dropped, and keys are
    /// read in the normal mode again.
    pub fn exit_command(&mut self)
        ensures
            final(self).mode == Mode::Normal,
            final(self).command@ == Seq::<char>::empty(),
            final(self).index == old(self).index,
            final(self).contexts == old(self).contexts,
    {
        self.command = String::new();
        self.mode = Mode::Normal;
    }

    /// Makes the next pane the active one; the first follows the last.
    pub fn next(&mut self)
        ensures
            final(self).index == (old(self).index + 1) % (PANES as int),
            *final(self) == (Views { index: final(self).index, ..*old(self) }),
    {
        self.index = if self.index >= PANES - 1 {
            (self.index - (PANES - 1)) % PANES
        } else {
            self.index + 1
        };
    }

    /// Makes the pane before the active one the active one; the last comes
    /// before the first.
    pub fn previous(&mut self)
        ensures
            final(self).index == if old(self).index > 0 {
                old(self).index - 1
            } else {
                PANES - 1
            },
            *final(self) == (Views { index: final(self).index, ..*old(self) }),
    {
        self.index = if self.index > 0 {
            self.index - 1
        } else {
            PANES - 1
        };
    }

    /// Makes the pane of number `index` the active one, of whose directory
    /// `found` is what a reading gave, and lets it list what was found.
    ///
    /// Fails with [`Error::NoSuchPane`] if there is no pane of that number,
    /// and nothing changes. A failed reading is handed on; the pane is then
    /// active, and stays as it was.
    pub fn index(&mut self, index: usize, found: Result<Vec<Entry>, IoError>) -> (result: Result<
        (),
        Error,
    >)
        ensures
            index >= PANES ==> result == Err::<(), Error>(Error::NoSuchPane) && *final(self)
                == *old(self),
            index < PANES ==> final(self).index == index && final(self).mode == old(self).mode
                && final(self).command == old(self).command && forall|k: int|
                0 <= k < PANES && k != index ==> final(self).contexts@[k] == old(self).contexts@[k],
            index < PANES ==> match found {
                Ok(raw) => result.is_ok() && lists(
                    final(self).contexts@[index as int].entries(),
                    views(raw@),
                    old(self).contexts@[index as int].recalled().show_hidden,
                ) && final(self).contexts@[index as int] == (Context {
                    directory: final(self).contexts@[index as int].directory,
                    ..old(self).contexts@[index as int]
                }),
                Err(error) => {
                    &&& result == Err::<(), Error>(Error::Io(error))
                    &&& final(self).contexts == old(self).contexts
                },
            },
    {
        if index >= PANES {
            return Err(Error::NoSuchPane);
        }
        self.index = index;
        self.contexts[index].read_directory(found)
    }
}

/// Round-trip memory: a pane that goes from a directory into a child and
/// back to the parent looks where it looked before, whatever it found on the
/// way, and is in the directory it was in.
pub proof fn lemma_round_trip(
    start: Context,
    inside: Context,
    back: Context,
    name: Seq<char>,
    child: Seq<EntryView>,
    parent: Seq<EntryView>,
)
    requires
        start.gone_to(inside, start.current_dir@.push(name), child),
        inside.gone_to(back, parent_of(inside.current_dir@), parent),
    ensures
        back.current_dir@ == start.current_dir@,
        back.place() == start.place(),
        back.recalled().marked == start.recalled().marked,
        back.recalled().show_hidden == start.recalled().show_hidden,
        lists(back.entries(), parent, start.recalled().show_hidden),
{
    let dir = start.current_dir@;
    assert(dir.push(name).drop_last() =~= dir);
    assert(dir.push(name).len() != dir.len());
}

} // verus!
