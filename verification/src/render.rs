//! What the list panel and the log panel show, line by line, before any
//! widget is made of it.

use vstd::prelude::*;
use crate::log::LogType;
use crate::tree::{forest_paths, shown, Item, ItemStatus, ItemType};
use crate::win::WindowBufferBounds;

verus! {

/// The colours that lines are drawn in.
#[derive(Clone, Copy, Debug, PartialEq, Eq, Structural)]
pub enum Color {
    DarkGray,
    Green,
    Red,
    Yellow,
    Cyan,
    White,
}

/// One line of the list panel: the indentation, the status marker and the
/// text of an item, and the colours of the marker and of the text.
#[derive(Debug, PartialEq, Eq)]
pub struct ListLine {
    pub indent: String,
    pub marker: String,
    pub marker_color: Color,
    pub text: String,
    pub text_color: Color,
}

/// A line of the list panel over sequences.
pub struct ListLineView {
    pub indent: Seq<char>,
    pub marker: Seq<char>,
    pub marker_color: Color,
    pub text: Seq<char>,
    pub text_color: Color,
}

impl View for ListLine {
    type V = ListLineView;

    open spec fn view(&self) -> ListLineView {
        ListLineView {
            indent: self.indent@,
            marker: self.marker@,
            marker_color: self.marker_color,
            text: self.text@,
            text_color: self.text_color,
        }
    }
}

/// The lines of a vector of list lines.
pub open spec fn line_views(lines: Seq<ListLine>) -> Seq<ListLineView> {
    Seq::new(lines.len(), |i: int| lines[i]@)
}

/// One line of the log panel: the coloured prefix of its severity and the
/// message.
#[derive(Debug, PartialEq, Eq)]
pub struct LogLine {
    pub prefix: String,
    pub color: Color,
    pub message: String,
}

/// A line of the log panel over sequences.
pub struct LogLineView {
    pub prefix: Seq<char>,
    pub color: Color,
    pub message: Seq<char>,
}

impl View for LogLine {
    type V = LogLineView;

    open spec fn view(&self) -> LogLineView {
        LogLineView { prefix: self.prefix@, color: self.color, message: self.message@ }
    }
}

/// The lines of a vector of log lines.
pub open spec fn log_line_views(lines: Seq<LogLine>) -> Seq<LogLineView> {
    Seq::new(lines.len(), |i: int| lines[i]@)
}

/// The prefix that the log panel puts before a message.
pub open spec fn severity_prefix(kind: LogType) -> Seq<char> {
    match kind {
        LogType::Log => "LOG : "@,
        LogType::Warning => "WARN: "@,
        LogType::Error => "DANG: "@,
    }
}

/// The colour of that prefix.
pub open spec fn severity_color(kind: LogType) -> Color {
    match kind {
        LogType::Log => Color::Cyan,
        LogType::Warning => Color::Yellow,
        LogType::Error => Color::Red,
    }
}

/// The line of the log panel for one message.
pub open spec fn log_line(entry: (LogType, Seq<char>)) -> LogLineView {
    LogLineView {
        prefix: severity_prefix(entry.0),
        color: severity_color(entry.0),
        message: entry.1,
    }
}

/// The log panel: one line for each message, the newest first.
pub open spec fn log_lines(log: Seq<(LogType, Seq<char>)>) -> Seq<LogLineView> {
    Seq::new(log.len(), |i: int| log_line(log[log.len() - 1 - i]))
}

/// `n` blanks.
pub open spec fn blanks(n: nat) -> Seq<char> {
    Seq::new(n, |i: int| ' ')
}

/// The indentation of an item at `path`: four blanks for each level below
/// the root list.
pub open spec fn indent_of(path: Seq<usize>) -> Seq<char> {
    blanks((4 * (path.len() - 1)) as nat)
}

/// The status marker of an item.
pub open spec fn marker_of(kind: ItemType, status: ItemStatus) -> Seq<char> {
    match kind {
        ItemType::Todo => match status {
            ItemStatus::Complete => "[x] "@,
            ItemStatus::Incomplete => "[ ] "@,
            ItemStatus::Disabled => "[-] "@,
        },
        ItemType::Note => "-   "@,
    }
}

/// The colour of the marker: grey for a hidden item, else by status.
pub open spec fn marker_color_of(kind: ItemType, status: ItemStatus, hidden: bool) -> Color {
    if hidden {
        Color::DarkGray
    } else {
        match kind {
            ItemType::Todo => match status {
                ItemStatus::Complete => Color::Green,
                ItemStatus::Incomplete => Color::Red,
                ItemStatus::Disabled => Color::Yellow,
            },
            ItemType::Note => Color::Cyan,
        }
    }
}

/// The colour of the text: cyan under the cursor, else grey for a hidden
/// item and white for any other.
pub open spec fn text_color_of(selected: bool, hidden: bool) -> Color {
    if selected {
        Color::Cyan
    } else if hidden {
        Color::DarkGray
    } else {
        Color::White
    }
}

/// The line of the list panel for `item` at `path`, with the cursor at
/// `cursor`.
pub open spec fn line_of(item: Item, path: Seq<usize>, cursor: Seq<usize>) -> ListLineView {
    ListLineView {
        indent: indent_of(path),
        marker: marker_of(item.item_type, item.status),
        marker_color: marker_color_of(item.item_type, item.status, item.hidden),
        text: item.text@,
        text_color: text_color_of(path == cursor, item.hidden),
    }
}

/// What a frame of the list panel depends on besides the items.
pub struct Frame {
    pub display_hidden: bool,
    pub window: WindowBufferBounds,
    pub cursor: Seq<usize>,
}

/// Whether the line with 1-based number `line` is inside the window.
pub open spec fn in_window(window: WindowBufferBounds, line: int) -> bool {
    window.min < line <= window.max + 1
}

/// The lines drawn for one node at `path` and for what is below it, when
/// `before` lines were counted ahead of it. A node that is shown counts as
/// one line, drawn if its number is inside the window; a node that is not
/// shown counts for nothing, and neither does anything below it.
pub open spec fn subtree_lines(item: Item, path: Seq<usize>, frame: Frame, before: int) -> Seq<
    ListLineView,
>
    decreases item,
{
    if shown(item.hidden, frame.display_hidden) {
        let own = if in_window(frame.window, before + 1) {
            seq![line_of(item, path, frame.cursor)]
        } else {
            Seq::empty()
        };
        own + forest_lines(item.sub_items@, path, frame, before + 1)
    } else {
        Seq::empty()
    }
}

/// The lines drawn for a list of siblings whose parent is at `prefix`, when
/// `before` lines were counted ahead of them.
pub open spec fn forest_lines(items: Seq<Item>, prefix: Seq<usize>, frame: Frame, before: int) -> Seq<
    ListLineView,
>
    decreases items,
{
    if items.len() == 0 {
        Seq::empty()
    } else {
        forest_lines(items.drop_last(), prefix, frame, before) + subtree_lines(
            items.last(),
            prefix.push((items.len() - 1) as usize),
            frame,
            before + forest_paths(items.drop_last(), prefix, frame.display_hidden).len(),
        )
    }
}

/// A list of siblings cut short has no more positions than the whole list.
pub proof fn lemma_forest_paths_grow(
    items: Seq<Item>,
    prefix: Seq<usize>,
    display_hidden: bool,
    k: int,
)
    requires
        0 <= k <= items.len(),
    ensures
        forest_paths(items.take(k), prefix, display_hidden).len() <= forest_paths(
            items,
            prefix,
            display_hidden,
        ).len(),
    decreases items.len(),
{
    if k < items.len() {
        lemma_forest_paths_grow(items.drop_last(), prefix, display_hidden, k);
        assert(items.drop_last().take(k) =~= items.take(k));
    } else {
        assert(items.take(k) =~= items);
    }
}

} // verus!
