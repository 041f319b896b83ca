//! The navigator as a mathematical value, and each of its transitions as a
//! function from the state before to the state after.

use vstd::prelude::*;
use crate::action::{NavAction, NavMode};
use crate::cursor::{any_related, first_related, last_related, nearest};
use crate::fingerprint::fingerprint_of;
use crate::log::LogType;
use crate::path::{cursor_shaped, rank_of, well_formed};
use crate::render::Frame;
use crate::store::{EffectView, ItemActionView, LoadOutcome, Reply, StoreRequestView};
use crate::term::{Key, TermEvent};
use crate::text::decimal;
use crate::tree::{valid_paths, Item, ItemType};
use crate::win::WindowBufferBounds;

verus! {

/// The state of a navigator.
pub struct NavView {
    /// Rows of the list panel, borders included.
    pub height: u16,
    /// The current position.
    pub cursor: Seq<usize>,
    /// The map of valid positions, in rendering order.
    pub paths: Seq<Seq<usize>>,
    /// The scrolling window.
    pub window: WindowBufferBounds,
    /// The diagnostic log, oldest message first.
    pub log: Seq<(LogType, Seq<char>)>,
    /// Whether hidden items are displayed.
    pub display_hidden: bool,
    /// Whether the log panel is displayed.
    pub debug: bool,
    /// The action that the last key asked for.
    pub action: NavAction,
    /// The input mode.
    pub mode: NavMode,
    /// The snapshot of the item tree.
    pub items: Seq<Item>,
    /// The fingerprint of the backing file when it was last loaded.
    pub file_hash: Seq<char>,
    /// The text typed so far for a new item.
    pub i_buffer: Seq<char>,
}

/// The log line for a window that changed.
pub open spec fn window_text(w: WindowBufferBounds) -> Seq<char> {
    "WinBuf set to height: "@ + decimal(w.size as nat) + ", min: "@ + decimal(w.min as nat)
        + ", max: "@ + decimal(w.max as nat) + ", pos: "@ + decimal(w.pos as nat)
}

/// The store-facing locator of a position: the path reversed, each index
/// turned into a 1-based ordinal.
pub open spec fn locator(cursor: Seq<usize>) -> Seq<usize> {
    Seq::new(cursor.len(), |i: int| (cursor[cursor.len() - 1 - i] + 1) as usize)
}

impl NavView {
    /// What every navigator satisfies: its map is well formed and its cursor
    /// has the shape of a cursor.
    pub open spec fn wf(self) -> bool {
        well_formed(self.paths) && cursor_shaped(self.cursor)
    }

    /// The cursor is at a position that the map holds.
    pub open spec fn cursor_valid(self) -> bool {
        self.paths.contains(self.cursor)
    }

    /// What a frame of the list panel depends on besides the items.
    pub open spec fn frame(self) -> Frame {
        Frame { display_hidden: self.display_hidden, window: self.window, cursor: self.cursor }
    }

    /// The state with one more log message.
    pub open spec fn logged(self, kind: LogType, text: Seq<char>) -> NavView {
        NavView { log: self.log.push((kind, text)), ..self }
    }

    /// The state with the cursor at `cursor`.
    pub open spec fn at(self, cursor: Seq<usize>) -> NavView {
        NavView { cursor, ..self }
    }

    /// Nearest-position correction: a cursor that the map holds stays; any
    /// other goes to the nearest position, and the log gets a warning.
    pub open spec fn corrected(self) -> NavView {
        if self.paths.contains(self.cursor) {
            self
        } else {
            self.at(nearest(self.paths, self.cursor)).logged(
                LogType::Warning,
                "Position could not be maintained, corrected to nearest available position"@,
            )
        }
    }

    /// Where the pending action takes the cursor, if it is a step that the
    /// cursor can take.
    pub open spec fn target(self) -> Option<Seq<usize>> {
        match self.action {
            NavAction::MoveOut => if self.cursor.len() > 1 {
                Some(self.cursor.drop_last())
            } else {
                None
            },
            _ => match self.action.step() {
                Some((rel, first)) => if any_related(self.paths, self.cursor, rel) {
                    if first {
                        Some(first_related(self.paths, self.cursor, rel))
                    } else {
                        Some(last_related(self.paths, self.cursor, rel))
                    }
                } else {
                    None
                },
                None => None,
            },
        }
    }

    /// The cursor part of the pending action: a toggle of visibility corrects
    /// the cursor; a step takes it to its target, or leaves it and logs a
    /// warning when there is none; any other action leaves it alone.
    pub open spec fn moved(self) -> NavView {
        match self.action {
            NavAction::ToggleItemHidden | NavAction::ToggleShowHidden => self.corrected(),
            NavAction::MoveOut
            | NavAction::MoveIn
            | NavAction::Next
            | NavAction::Prev
            | NavAction::GoToTop
            | NavAction::GoToBottom
            | NavAction::GoToRootLevel => match self.target() {
                Some(cursor) => self.at(cursor),
                None => self.logged(LogType::Warning, self.action.refusal()),
            },
            _ => self,
        }
    }

    /// The window brought up to date with the height and the cursor. A
    /// window that changed is logged; where the recompute would leave the
    /// range of `u16` the window stays as it is and the log gets a warning.
    pub open spec fn window_handled(self, initial: bool) -> NavView {
        let rank = rank_of(self.paths, self.cursor);
        if self.window.can_set_size(self.height, rank, initial) {
            let window = self.window.after_set_size(self.height, rank, initial);
            if window != self.window {
                (NavView { window, ..self }).logged(LogType::Log, window_text(window))
            } else {
                self
            }
        } else {
            self.logged(LogType::Warning, "Window bounds out of range, left unchanged"@)
        }
    }

    /// The state after an event of the input queue. In navigate mode the
    /// event sets the pending action. In input mode a character is appended
    /// to the text, Backspace removes the last one, Enter goes back to
    /// navigate mode and turns a prepared addition into the addition, Escape
    /// goes back, drops the text and the pending action; anything else is
    /// ignored.
    pub open spec fn after_input(self, event: TermEvent) -> NavView {
        match self.mode {
            NavMode::Navigate => NavView { action: NavAction::for_event(event), ..self },
            NavMode::Input => match event {
                TermEvent::Key(Key::Enter) => NavView {
                    mode: NavMode::Navigate,
                    action: self.action.promoted(),
                    ..self
                },
                TermEvent::Key(Key::Esc) => NavView {
                    mode: NavMode::Navigate,
                    action: NavAction::NoAction,
                    i_buffer: Seq::empty(),
                    ..self
                },
                TermEvent::Key(Key::Char(c)) => NavView { i_buffer: self.i_buffer.push(c), ..self },
                TermEvent::Key(Key::Backspace) => if self.i_buffer.len() > 0 {
                    NavView { i_buffer: self.i_buffer.drop_last(), ..self }
                } else {
                    self
                },
                _ => self,
            },
        }
    }

    /// The state after a load. A failed load is logged as an error and
    /// changes nothing else. A list that was loaded replaces the snapshot,
    /// the map is rebuilt from it, the cursor is corrected, and the
    /// fingerprint of the file is taken and logged.
    pub open spec fn reloaded(self, outcome: LoadOutcome) -> NavView {
        match outcome {
            LoadOutcome::Failed { reason } => self.logged(
                LogType::Error,
                "Failed to load list: "@ + reason@,
            ),
            LoadOutcome::Loaded { items, contents } => {
                let rebuilt = NavView {
                    items: items@,
                    paths: valid_paths(items@, self.display_hidden),
                    ..self
                };
                let hash = fingerprint_of(contents@);
                (NavView { file_hash: hash, ..rebuilt.corrected() }).logged(
                    LogType::Log,
                    "Hash reloaded "@ + hash,
                )
            },
        }
    }

    /// The state after a save and the load that follows it: a failed save is
    /// logged as an error, then the load is taken in.
    pub open spec fn saved_and_reloaded(self, saved: Result<(), String>, outcome: LoadOutcome) -> NavView {
        match saved {
            Ok(_) => self.reloaded(outcome),
            Err(reason) => self.logged(LogType::Error, "Failed to save list: "@ + reason@).reloaded(
                outcome,
            ),
        }
    }

    /// The state with the pending action announced in the log.
    pub open spec fn announced(self) -> NavView {
        match self.action.announcement() {
            Some(text) => self.logged(LogType::Log, text),
            None => self,
        }
    }

    /// The store work that the pending action needs, if it needs any.
    pub open spec fn request(self) -> Option<StoreRequestView> {
        match self.action {
            NavAction::ToggleShowHidden => Some(StoreRequestView::SaveAndReload),
            NavAction::CycleItemStatus => Some(
                StoreRequestView::Act {
                    location: locator(self.cursor),
                    action: ItemActionView::CycleStatus,
                },
            ),
            NavAction::ToggleItemHidden => Some(
                StoreRequestView::Act {
                    location: locator(self.cursor),
                    action: ItemActionView::ToggleHidden,
                },
            ),
            NavAction::ToggleItemType => Some(
                StoreRequestView::Act {
                    location: locator(self.cursor),
                    action: ItemActionView::ToggleType,
                },
            ),
            NavAction::AddItem => Some(
                StoreRequestView::Act {
                    location: locator(self.cursor),
                    action: ItemActionView::Add(ItemType::Todo, self.i_buffer),
                },
            ),
            NavAction::AddRootItem => Some(
                StoreRequestView::Act {
                    location: Seq::empty(),
                    action: ItemActionView::Add(ItemType::Todo, self.i_buffer),
                },
            ),
            NavAction::RemoveItem => Some(
                StoreRequestView::Act {
                    location: locator(self.cursor),
                    action: ItemActionView::Remove,
                },
            ),
            _ => None,
        }
    }

    /// The state after the pending action is taken up. The action is
    /// announced. One that needs the store sets what it sets before the store
    /// is asked: the visibility flag is flipped, the text of an addition is
    /// handed over and cleared. One that does not is carried out in full: the
    /// debug flag is flipped, the mode is set to input, or the cursor takes
    /// its step and the window follows.
    pub open spec fn dispatched(self) -> NavView {
        let said = self.announced();
        match self.action {
            NavAction::ToggleDebug => NavView { debug: !said.debug, ..said },
            NavAction::PreAddItem | NavAction::PreAddRootItem => NavView {
                mode: NavMode::Input,
                ..said
            },
            NavAction::ToggleShowHidden => NavView { display_hidden: !said.display_hidden, ..said },
            NavAction::AddItem | NavAction::AddRootItem => NavView { i_buffer: Seq::empty(), ..said },
            NavAction::MoveOut
            | NavAction::MoveIn
            | NavAction::Next
            | NavAction::Prev
            | NavAction::GoToTop
            | NavAction::GoToBottom
            | NavAction::GoToRootLevel => said.moved().window_handled(false),
            _ => said,
        }
    }

    /// What taking up the pending action asks of the outside: the store work
    /// that it needs, or nothing more, with the session ending on `Exit`.
    pub open spec fn dispatch_effect(self) -> EffectView {
        match self.request() {
            Some(request) => EffectView::Store(request),
            None => EffectView::Done { keep_running: self.action != NavAction::Exit },
        }
    }

    /// The state after the store did the work of the pending action: the save
    /// and the load are taken in, and for a movement action the cursor part
    /// of the action is done and the window follows.
    pub open spec fn stored(self, saved: Result<(), String>, outcome: LoadOutcome) -> NavView {
        let fresh = self.saved_and_reloaded(saved, outcome);
        if self.action.is_movement() {
            fresh.moved().window_handled(false)
        } else {
            fresh
        }
    }

    /// Whether the backing file, read as `contents`, differs from what was
    /// last loaded.
    pub open spec fn stale(self, contents: Seq<char>) -> bool {
        fingerprint_of(contents) != self.file_hash
    }

    /// The state after an event is taken in: the event is read, and until
    /// the first frame is drawn the cursor is corrected.
    pub open spec fn entered(self, event: TermEvent, initial: bool) -> NavView {
        if initial {
            self.after_input(event).corrected()
        } else {
            self.after_input(event)
        }
    }

    /// What is asked for at the start of taking an action: in navigate mode
    /// the text of the backing file, in input mode nothing.
    pub open spec fn action_effect(self) -> EffectView {
        match self.mode {
            NavMode::Navigate => EffectView::ReadContents,
            NavMode::Input => EffectView::Done { keep_running: true },
        }
    }

    /// The state after a reply is taken in.
    pub open spec fn advanced(self, reply: Reply) -> NavView {
        match reply {
            Reply::Event { event, initial } => self.entered(event, initial),
            Reply::Contents(contents) => if self.stale(contents@) {
                self
            } else {
                self.dispatched()
            },
            Reply::Loaded(outcome) => self.reloaded(outcome).dispatched(),
            Reply::Stored { saved, outcome } => self.stored(saved, outcome),
        }
    }

    /// What is asked for after a reply is taken in. An event asks for the
    /// text of the file where an action is to be taken. A text that differs
    /// from what was loaded asks for a load; any other text, and a load,
    /// lead to the pending action. Store work ends the event.
    pub open spec fn advance_effect(self, reply: Reply) -> EffectView {
        match reply {
            Reply::Event { event, initial } => self.entered(event, initial).action_effect(),
            Reply::Contents(contents) => if self.stale(contents@) {
                EffectView::Load
            } else {
                self.dispatch_effect()
            },
            Reply::Loaded(outcome) => self.reloaded(outcome).dispatch_effect(),
            Reply::Stored { saved, outcome } => EffectView::Done { keep_running: true },
        }
    }

    /// The state after the list panel was measured: a height that differs
    /// from the last one is taken and logged, and the window follows.
    pub open spec fn measured(self, height: u16, initial: bool) -> NavView {
        if height != self.height {
            (NavView { height, ..self }).logged(
                LogType::Log,
                "Height set to "@ + decimal(height as nat),
            ).window_handled(initial)
        } else {
            self
        }
    }
}

} // verus!
