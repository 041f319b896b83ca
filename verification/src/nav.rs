//! The navigator: the cursor, the map of valid positions, the pending action
//! and the input mode, the log and the snapshot of the item tree.

use vstd::prelude::*;
pub use crate::action::{NavAction, NavMode};
use crate::ctx::Ctx;
use crate::cursor::{
    first_related_index, last_related_index, lemma_first_related_unique,
    lemma_last_related_unique, lemma_nearest_at_unique, nearest_from, nearest_index_at,
    path_index, prefix_index, Relation,
};
use crate::cursor_laws::{lemma_correction_cursor_shaped, lemma_entry_cursor_shaped};
use crate::fingerprint::{fingerprint, fingerprint_of};
use crate::log::{log_views, LogMsg, LogType};
use crate::model::{locator, window_text, NavView};
use crate::path::{cursor_shaped, same_path, views, well_formed};
use crate::render::{
    blanks, forest_lines, in_window, lemma_forest_paths_grow, line_of, line_views, log_line,
    log_line_views, log_lines, marker_color_of, marker_of, severity_color, severity_prefix,
    subtree_lines, Color, ListLine, LogLine,
};
use crate::store::{Effect, EffectView, ItemAction, LoadOutcome, Reply, StoreRequest};
use crate::term::{Key, TermEvent};
use crate::text::{decimal_text, pop_char, push_char};
use crate::tree::{
    enumerate_items, forest_paths, subtree_paths, valid_paths, walk_items, Item, ItemStatus,
    ItemType,
};
use crate::tree_laws::lemma_enumeration_well_formed;
use crate::win::WindowBufferBounds;

verus! {

/// The cursor, the positions it may take, and the scrolling window.
pub struct NavigationMap {
    position: Vec<usize>,
    valid_positions: Vec<Vec<usize>>,
    window_buffer: WindowBufferBounds,
}

impl NavigationMap {
    #[verifier::type_invariant]
    spec fn inv(self) -> bool {
        cursor_shaped(self.position@) && well_formed(views(self.valid_positions@))
    }
}

/// The navigator of one session.
pub struct Navigator {
    pub height: u16,
    map: NavigationMap,
    d_buffer: Vec<LogMsg>,
    display_hidden: bool,
    pub debug: bool,
    action: NavAction,
    pub mode: NavMode,
    items: Vec<Item>,
    pub file_hash: String,
    pub i_buffer: String,
}

impl View for Navigator {
    type V = NavView;

    closed spec fn view(&self) -> NavView {
        NavView {
            height: self.height,
            cursor: self.map.position@,
            paths: views(self.map.valid_positions@),
            window: self.map.window_buffer,
            log: log_views(self.d_buffer@),
            display_hidden: self.display_hidden,
            debug: self.debug,
            action: self.action,
            mode: self.mode,
            items: self.items@,
            file_hash: self.file_hash@,
            i_buffer: self.i_buffer@,
        }
    }
}

/// A copy of a path.
fn copy_path(path: &Vec<usize>) -> (copy: Vec<usize>)
    ensures
        copy@ == path@,
{
    let mut copy: Vec<usize> = Vec::new();
    let mut i: usize = 0;
    while i < path.len()
        invariant
            i <= path.len(),
            copy@ == path@.take(i as int),
        decreases path.len() - i,
    {
        copy.push(path[i]);
        assert(copy@ =~= path@.take(i + 1));
        i = i + 1;
    }
    assert(path@.take(path.len() as int) =~= path@);
    copy
}

/// The position that the search for a nearest position ends at, for a cursor
/// that the map does not hold.
fn nearest_position(paths: &Vec<Vec<usize>>, pos: &Vec<usize>) -> (found: Vec<usize>)
    ensures
        found@ == nearest_from(views(paths@), pos@, pos@.len()),
{
    let mut level: usize = pos.len();
    while level > 0
        invariant
            level <= pos.len(),
            nearest_from(views(paths@), pos@, pos@.len()) == nearest_from(
                views(paths@),
                pos@,
                level as nat,
            ),
        decreases level,
    {
        match nearest_index_at(paths, pos, level) {
            Some(j) => {
                proof {
                    lemma_nearest_at_unique(views(paths@), pos@, level as int, j as int);
                }
                return copy_path(&paths[j]);
            },
            None => {},
        }
        match prefix_index(paths, pos, level - 1) {
            Some(j) => {
                assert(views(paths@).contains(pos@.take(level - 1)));
                return copy_path(&paths[j]);
            },
            None => {},
        }
        level = level - 1;
    }
    let mut first: Vec<usize> = Vec::new();
    first.push(0);
    assert(first@ =~= seq![0usize]);
    first
}

impl Navigator {
    /// Appends a message of severity `Log` to the log.
    pub fn push_log(&mut self, msg: &str)
        ensures
            final(self)@ == old(self)@.logged(LogType::Log, msg@),
    {
        self.d_buffer.push(LogMsg::log(msg));
        assert(final(self)@.log =~= old(self)@.log.push((LogType::Log, msg@)));
    }

    /// Appends a message of severity `Warning` to the log.
    pub fn push_warn(&mut self, msg: &str)
        ensures
            final(self)@ == old(self)@.logged(LogType::Warning, msg@),
    {
        self.d_buffer.push(LogMsg::warn(msg));
        assert(final(self)@.log =~= old(self)@.log.push((LogType::Warning, msg@)));
    }

    /// Appends a message of severity `Error` to the log.
    pub fn push_error(&mut self, msg: &str)
        ensures
            final(self)@ == old(self)@.logged(LogType::Error, msg@),
    {
        self.d_buffer.push(LogMsg::error(msg));
        assert(final(self)@.log =~= old(self)@.log.push((LogType::Error, msg@)));
    }
}

/// Building the map of positions and moving the cursor over it.
pub trait NavigateMap {
    /// Corrects the cursor to the nearest valid position.
    fn set_nearest_pos(&mut self);

    /// Carries out the cursor part of the pending action.
    fn move_action(&mut self);

    /// Appends to `the_map` the positions of `items`, whose parent is at
    /// `sub_positions`.
    fn through_items(
        the_map: &mut Vec<Vec<usize>>,
        sub_positions: &mut Vec<usize>,
        items: &Vec<Item>,
        display_hidden: bool,
    );

    /// The positions of `items` that the cursor may take, in rendering order.
    fn from_items(items: &Vec<Item>, display_hidden: bool) -> Vec<Vec<usize>>;
}

impl Navigator {
    /// Takes the step of the pending action: the cursor goes to the first or
    /// the last entry of the map in relation `rel` to it, or stays where it
    /// is, with the warning `refusal` in the log, when there is none.
    fn take_step(&mut self, rel: Relation, first: bool, refusal: &str)
        requires
            old(self)@.action.step() == Some((rel, first)),
            refusal@ == old(self)@.action.refusal(),
        ensures
            final(self)@ == old(self)@.moved(),
    {
        proof {
            use_type_invariant(&self.map);
        }
        let found = if first {
            first_related_index(&self.map.valid_positions, &self.map.position, rel)
        } else {
            last_related_index(&self.map.valid_positions, &self.map.position, rel)
        };
        match found {
            Some(j) => {
                proof {
                    let paths = views(self.map.valid_positions@);
                    if first {
                        lemma_first_related_unique(paths, self.map.position@, rel, j as int);
                    } else {
                        lemma_last_related_unique(paths, self.map.position@, rel, j as int);
                    }
                    assert(paths.contains(paths[j as int]));
                    lemma_entry_cursor_shaped(paths, paths[j as int]);
                }
                let next = copy_path(&self.map.valid_positions[j]);
                self.map.position = next;
            },
            None => {
                self.push_warn(refusal);
            },
        }
    }
}

impl NavigateMap for Navigator {
    fn set_nearest_pos(&mut self)
        ensures
            final(self)@ == old(self)@.corrected(),
    {
        proof {
            use_type_invariant(&self.map);
        }
        if path_index(&self.map.valid_positions, &self.map.position).is_some() {
            return ;
        }
        proof {
            lemma_correction_cursor_shaped(views(self.map.valid_positions@), self.map.position@);
        }
        let next = nearest_position(&self.map.valid_positions, &self.map.position);
        self.map.position = next;
        self.push_warn("Position could not be maintained, corrected to nearest available position");
    }

    fn move_action(&mut self)
        ensures
            final(self)@ == old(self)@.moved(),
    {
        match self.action {
            NavAction::ToggleItemHidden | NavAction::ToggleShowHidden => {
                self.set_nearest_pos();
            },
            NavAction::MoveIn => {
                self.take_step(Relation::Child, true, "Horizontal positional overflow avoided");
            },
            NavAction::MoveOut => {
                proof {
                    use_type_invariant(&self.map);
                }
                if self.map.position.len() > 1 {
                    let mut parent = copy_path(&self.map.position);
                    parent.pop();
                    self.map.position = parent;
                } else {
                    self.push_warn("Horizontal positional underflow avoided");
                }
            },
            NavAction::Next => {
                self.take_step(Relation::Later, true, "Vertical position overflow avoided");
            },
            NavAction::Prev => {
                self.take_step(Relation::Earlier, false, "Vertical position underflow avoided");
            },
            NavAction::GoToTop => {
                self.take_step(Relation::Sibling, true, "Vertical position underflow avoided");
            },
            NavAction::GoToBottom => {
                self.take_step(Relation::Sibling, false, "Vertical position overflow avoided");
            },
            NavAction::GoToRootLevel => {
                self.take_step(Relation::SameRoot, true, "Horizontal positional underflow avoided");
            },
            _ => {},
        }
    }

    fn through_items(
        the_map: &mut Vec<Vec<usize>>,
        sub_positions: &mut Vec<usize>,
        items: &Vec<Item>,
        display_hidden: bool,
    )
        ensures
            views(final(the_map)@) == views(old(the_map)@) + forest_paths(
                items@,
                old(sub_positions)@,
                display_hidden,
            ),
            final(sub_positions)@ == old(sub_positions)@,
    {
        walk_items(the_map, sub_positions, items, display_hidden);
    }

    fn from_items(items: &Vec<Item>, display_hidden: bool) -> (the_map: Vec<Vec<usize>>)
        ensures
            views(the_map@) == valid_paths(items@, display_hidden),
    {
        enumerate_items(items, display_hidden)
    }
}

/// The log line for a window that changed.
fn window_message(w: &WindowBufferBounds) -> (msg: String)
    ensures
        msg@ == window_text(*w),
{
    let mut msg = "WinBuf set to height: ".to_owned();
    msg.append(decimal_text(w.size as usize).as_str());
    msg.append(", min: ");
    msg.append(decimal_text(w.min as usize).as_str());
    msg.append(", max: ");
    msg.append(decimal_text(w.max as usize).as_str());
    msg.append(", pos: ");
    msg.append(decimal_text(w.pos as usize).as_str());
    msg
}

/// `prefix` followed by `rest`.
fn joined(prefix: &str, rest: &str) -> (text: String)
    ensures
        text@ == prefix@ + rest@,
{
    let mut text = prefix.to_owned();
    text.append(rest);
    text
}

impl Navigator {
    /// A navigator over a list that was just loaded: the cursor is at the
    /// first root item, the map is built from the items, the window is not
    /// sized yet, and the fingerprint is that of `contents`, the text of the
    /// backing file.
    pub fn new(ctx: &Ctx, items: Vec<Item>, contents: &str) -> (nav: Self)
        ensures
            nav@ == (NavView {
                height: 0,
                cursor: seq![0usize],
                paths: valid_paths(items@, ctx.spec_args().display_hidden),
                window: WindowBufferBounds { size: 0, min: 0, max: 0, pos: 0 },
                log: Seq::empty(),
                display_hidden: ctx.spec_args().display_hidden,
                debug: ctx.spec_args().debug,
                action: NavAction::NoAction,
                mode: NavMode::Navigate,
                items: items@,
                file_hash: fingerprint_of(contents@),
                i_buffer: Seq::empty(),
            }),
    {
        let display_hidden = ctx.display_hidden();
        let valid_pos = enumerate_items(&items, display_hidden);
        let mut position: Vec<usize> = Vec::new();
        position.push(0);
        proof {
            lemma_enumeration_well_formed(items, display_hidden);
            assert(position@ =~= seq![0usize]);
        }
        let nav = Navigator {
            height: 0,
            map: NavigationMap {
                position,
                valid_positions: valid_pos,
                window_buffer: WindowBufferBounds::init(),
            },
            d_buffer: Vec::new(),
            display_hidden,
            debug: ctx.debug(),
            action: NavAction::NoAction,
            mode: NavMode::Navigate,
            items,
            file_hash: fingerprint(contents),
            i_buffer: String::new(),
        };
        assert(nav@.log =~= Seq::empty());
        nav
    }

    /// The fingerprint of the backing file, whose text is `contents`.
    pub fn get_file_hash(contents: &str) -> (hash: String)
        ensures
            hash@ == fingerprint_of(contents@),
    {
        fingerprint(contents)
    }

    /// The store-facing locator of the cursor: the path reversed, each index
    /// turned into a 1-based ordinal.
    pub fn get_todo_item_location(&mut self) -> (location: Vec<usize>)
        ensures
            final(self)@ == old(self)@,
            location@ == locator(old(self)@.cursor),
    {
        proof {
            use_type_invariant(&self.map);
        }
        let n: usize = self.map.position.len();
        let mut location: Vec<usize> = Vec::new();
        let mut i: usize = 0;
        while i < n
            invariant
                i <= n,
                n == self.map.position.len(),
                cursor_shaped(self.map.position@),
                location@ == locator(self.map.position@).take(i as int),
            decreases n - i,
        {
            location.push(self.map.position[n - 1 - i] + 1);
            assert(location@ =~= locator(self.map.position@).take(i + 1));
            i = i + 1;
        }
        assert(locator(self.map.position@).take(n as int) =~= locator(self.map.position@));
        location
    }

    /// Brings the window up to date with the height and the cursor.
    pub fn handle_win_buf(&mut self, initial: bool)
        ensures
            final(self)@ == old(self)@.window_handled(initial),
    {
        let mut window: WindowBufferBounds = self.map.window_buffer;
        if window.fits(self.height, &self.map.position, &self.map.valid_positions, initial) {
            let changed = window.set_size(
                self.height,
                &self.map.position,
                &self.map.valid_positions,
                initial,
            );
            proof {
                use_type_invariant(&self.map);
            }
            self.map.window_buffer = window;
            if changed {
                let msg = window_message(&window);
                self.push_log(msg.as_str());
            }
        } else {
            self.push_warn("Window bounds out of range, left unchanged");
        }
    }

    /// Takes in an event of the input queue.
    pub fn handle_input(&mut self, event: TermEvent)
        ensures
            final(self)@ == old(self)@.after_input(event),
    {
        match self.mode {
            NavMode::Navigate => {
                self.action = NavAction::from_event(event);
            },
            NavMode::Input => {
                match event {
                    TermEvent::Key(key) => match key {
                        Key::Enter => {
                            self.mode = NavMode::Navigate;
                            match self.action {
                                NavAction::PreAddRootItem => {
                                    self.action = NavAction::AddRootItem;
                                },
                                NavAction::PreAddItem => {
                                    self.action = NavAction::AddItem;
                                },
                                _ => {},
                            }
                        },
                        Key::Esc => {
                            self.mode = NavMode::Navigate;
                            self.action = NavAction::NoAction;
                            self.i_buffer = String::new();
                        },
                        Key::Char(c) => {
                            push_char(&mut self.i_buffer, c);
                        },
                        Key::Backspace => {
                            pop_char(&mut self.i_buffer);
                        },
                        _ => {},
                    },
                    _ => {},
                }
            },
        }
    }

    /// Takes in the outcome of a load.
    pub fn reload(&mut self, outcome: LoadOutcome)
        ensures
            final(self)@ == old(self)@.reloaded(outcome),
    {
        match outcome {
            LoadOutcome::Failed { reason } => {
                let msg = joined("Failed to load list: ", reason.as_str());
                self.push_error(msg.as_str());
            },
            LoadOutcome::Loaded { items, contents } => {
                let nav_map = enumerate_items(&items, self.display_hidden);
                proof {
                    use_type_invariant(&self.map);
                    lemma_enumeration_well_formed(items, self.display_hidden);
                }
                self.items = items;
                self.map.valid_positions = nav_map;
                self.set_nearest_pos();
                self.file_hash = fingerprint(contents.as_str());
                let msg = joined("Hash reloaded ", self.file_hash.as_str());
                self.push_log(msg.as_str());
            },
        }
    }

    /// Takes in the outcome of a save and of the load that followed it.
    pub fn save_and_reload(&mut self, saved: Result<(), String>, outcome: LoadOutcome)
        ensures
            final(self)@ == old(self)@.saved_and_reloaded(saved, outcome),
    {
        match saved {
            Ok(_) => {},
            Err(reason) => {
                let msg = joined("Failed to save list: ", reason.as_str());
                self.push_error(msg.as_str());
            },
        }
        self.reload(outcome);
    }
}

/// Which panels a frame shows besides the list.
#[derive(Clone, Copy, Debug, PartialEq, Eq, Structural)]
pub struct Panels {
    /// The box with the text typed for a new item.
    pub text_box: bool,
    /// The diagnostic log.
    pub debug_log: bool,
}

/// Least number of rows of the list panel.
pub const LIST_MIN_ROWS: u16 = 3;

/// Rows of the text box.
pub const TEXT_ROWS: u16 = 3;

/// Rows of the log panel.
pub const DEBUG_ROWS: u16 = 6;

impl Navigator {
    /// Takes up the pending action.
    pub fn dispatch(&mut self) -> (effect: Effect)
        ensures
            final(self)@ == old(self)@.dispatched(),
            effect@ == old(self)@.dispatch_effect(),
    {
        match self.action.log_text() {
            Some(text) => {
                self.push_log(text);
            },
            None => {},
        }
        match self.action {
            NavAction::ToggleDebug => {
                self.debug = !self.debug;
                Effect::Done { keep_running: true }
            },
            NavAction::NoAction => Effect::Done { keep_running: true },
            NavAction::Exit => Effect::Done { keep_running: false },
            NavAction::MoveOut
            | NavAction::MoveIn
            | NavAction::Next
            | NavAction::Prev
            | NavAction::GoToTop
            | NavAction::GoToBottom
            | NavAction::GoToRootLevel => {
                self.move_action();
                self.handle_win_buf(false);
                Effect::Done { keep_running: true }
            },
            NavAction::PreAddItem | NavAction::PreAddRootItem => {
                self.mode = NavMode::Input;
                Effect::Done { keep_running: true }
            },
            NavAction::ToggleShowHidden => {
                self.display_hidden = !self.display_hidden;
                Effect::Store(StoreRequest::SaveAndReload)
            },
            NavAction::CycleItemStatus => {
                let location = self.get_todo_item_location();
                Effect::Store(StoreRequest::Act { location, action: ItemAction::CycleStatus })
            },
            NavAction::ToggleItemHidden => {
                let location = self.get_todo_item_location();
                Effect::Store(StoreRequest::Act { location, action: ItemAction::ToggleHidden })
            },
            NavAction::ToggleItemType => {
                let location = self.get_todo_item_location();
                Effect::Store(StoreRequest::Act { location, action: ItemAction::ToggleType })
            },
            NavAction::AddItem => {
                let location = self.get_todo_item_location();
                let text = self.i_buffer.clone();
                self.i_buffer = String::new();
                Effect::Store(
                    StoreRequest::Act { location, action: ItemAction::Add(ItemType::Todo, text) },
                )
            },
            NavAction::AddRootItem => {
                let location: Vec<usize> = Vec::new();
                let text = self.i_buffer.clone();
                self.i_buffer = String::new();
                Effect::Store(
                    StoreRequest::Act { location, action: ItemAction::Add(ItemType::Todo, text) },
                )
            },
            NavAction::RemoveItem => {
                let location = self.get_todo_item_location();
                Effect::Store(StoreRequest::Act { location, action: ItemAction::Remove })
            },
        }
    }

    /// Begins to take the pending action: in navigate mode the text of the
    /// backing file is asked for, in input mode there is nothing to do.
    pub fn take_action(&mut self) -> (effect: Effect)
        ensures
            final(self)@ == old(self)@,
            effect@ == old(self)@.action_effect(),
    {
        match self.mode {
            NavMode::Navigate => Effect::ReadContents,
            NavMode::Input => Effect::Done { keep_running: true },
        }
    }

    /// Takes the pending action, given the text of the backing file. A text
    /// whose fingerprint is not that of the last load asks for a load and
    /// leaves everything as it is; any other text leads to the action.
    pub fn take_movement_action(&mut self, contents: &str) -> (effect: Effect)
        ensures
            old(self)@.stale(contents@) ==> final(self)@ == old(self)@ && effect@
                == EffectView::Load,
            !old(self)@.stale(contents@) ==> final(self)@ == old(self)@.dispatched() && effect@
                == old(self)@.dispatch_effect(),
    {
        let new_hash = Self::get_file_hash(contents);
        if self.file_hash != new_hash {
            Effect::Load
        } else {
            self.dispatch()
        }
    }

    /// Takes in the load that a changed file asked for, then takes the
    /// pending action.
    pub fn resume_after_reload(&mut self, outcome: LoadOutcome) -> (effect: Effect)
        ensures
            final(self)@ == old(self)@.reloaded(outcome).dispatched(),
            effect@ == old(self)@.reloaded(outcome).dispatch_effect(),
    {
        self.reload(outcome);
        self.dispatch()
    }

    /// Takes in the store work that the pending action asked for, and ends
    /// the action.
    pub fn resume_after_store(&mut self, saved: Result<(), String>, outcome: LoadOutcome) -> (effect:
        Effect)
        ensures
            final(self)@ == old(self)@.stored(saved, outcome),
            effect@ == (EffectView::Done { keep_running: true }),
    {
        self.save_and_reload(saved, outcome);
        if self.action.moves() {
            self.move_action();
            self.handle_win_buf(false);
        }
        Effect::Done { keep_running: true }
    }

    /// Takes in a reply and says what is needed next.
    pub fn advance(&mut self, reply: Reply) -> (effect: Effect)
        ensures
            final(self)@ == old(self)@.advanced(reply),
            effect@ == old(self)@.advance_effect(reply),
    {
        match reply {
            Reply::Event { event, initial } => {
                self.handle_input(event);
                if initial {
                    self.set_nearest_pos();
                }
                self.take_action()
            },
            Reply::Contents(contents) => self.take_movement_action(contents.as_str()),
            Reply::Loaded(outcome) => self.resume_after_reload(outcome),
            Reply::Stored { saved, outcome } => self.resume_after_store(saved, outcome),
        }
    }

    /// Takes in the number of rows that the layout gave the list panel.
    pub fn set_height(&mut self, height: u16, initial: bool)
        ensures
            final(self)@ == old(self)@.measured(height, initial),
    {
        if height != self.height {
            self.height = height;
            let msg = joined("Height set to ", decimal_text(height as usize).as_str());
            self.push_log(msg.as_str());
            self.handle_win_buf(initial);
        }
    }

    /// Which panels the next frame shows besides the list: the text box in
    /// input mode, though not in the first frame, and the log in debug mode.
    pub fn panels(&self, initial: bool) -> (shown: Panels)
        ensures
            shown.text_box == (self@.mode == NavMode::Input && !initial),
            shown.debug_log == self@.debug,
    {
        let text_box = match self.mode {
            NavMode::Input => !initial,
            NavMode::Navigate => false,
        };
        Panels { text_box, debug_log: self.debug }
    }
}

/// The marker of an item and its colour.
fn marker(item: &Item) -> (drawn: (String, Color))
    ensures
        drawn.0@ == marker_of(item.item_type, item.status),
        drawn.1 == marker_color_of(item.item_type, item.status, item.hidden),
{
    let (text, lit): (&str, Color) = match item.item_type {
        ItemType::Todo => match item.status {
            ItemStatus::Complete => ("[x] ", Color::Green),
            ItemStatus::Incomplete => ("[ ] ", Color::Red),
            ItemStatus::Disabled => ("[-] ", Color::Yellow),
        },
        ItemType::Note => ("-   ", Color::Cyan),
    };
    let color = if item.hidden {
        Color::DarkGray
    } else {
        lit
    };
    (text.to_owned(), color)
}

/// Four blanks for each of `levels` levels.
fn indentation(levels: usize) -> (indent: String)
    ensures
        indent@ == blanks((4 * levels) as nat),
{
    let mut indent = String::new();
    let mut k: usize = 0;
    assert(indent@ =~= blanks(0));
    while k < levels
        invariant
            k <= levels,
            indent@ == blanks((4 * k) as nat),
        decreases levels - k,
    {
        proof {
            reveal_strlit("    ");
        }
        indent.append("    ");
        assert(indent@ =~= blanks((4 * (k + 1)) as nat));
        k = k + 1;
    }
    indent
}

impl Navigator {
    /// The lines of the log panel, the newest message first.
    pub fn render_buffer(&mut self) -> (lines: Vec<LogLine>)
        ensures
            final(self)@ == old(self)@,
            log_line_views(lines@) == log_lines(old(self)@.log),
    {
        let n: usize = self.d_buffer.len();
        let mut lines: Vec<LogLine> = Vec::new();
        let mut i: usize = 0;
        while i < n
            invariant
                i <= n,
                n == self.d_buffer.len(),
                log_line_views(lines@) == log_lines(log_views(self.d_buffer@)).take(i as int),
            decreases n - i,
        {
            let msg = &self.d_buffer[n - 1 - i];
            let (prefix, color): (&str, Color) = match msg.log_type {
                LogType::Log => ("LOG : ", Color::Cyan),
                LogType::Warning => ("WARN: ", Color::Yellow),
                LogType::Error => ("DANG: ", Color::Red),
            };
            let ghost before = log_line_views(lines@);
            let ghost want = log_lines(log_views(self.d_buffer@));
            let line = LogLine { prefix: prefix.to_owned(), color, message: msg.message.clone() };
            proof {
                assert(line@.prefix == severity_prefix(msg.log_type));
                assert(line@.color == severity_color(msg.log_type));
                assert(log_views(self.d_buffer@)[n - 1 - i] == msg@);
                assert(want[i as int] == log_line(msg@));
                assert(line@ == want[i as int]);
            }
            lines.push(line);
            assert(log_line_views(lines@) =~= before.push(want[i as int]));
            assert(log_line_views(lines@) =~= want.take(i + 1));
            i = i + 1;
        }
        assert(log_lines(log_views(self.d_buffer@)).take(n as int) =~= log_lines(
            log_views(self.d_buffer@),
        ));
        lines
    }

    /// Appends the line of `item`, which is at `pos`, to `items`.
    pub fn item_as_widget(&self, item: &Item, items: &mut Vec<ListLine>, pos: &mut Vec<usize>)
        requires
            old(pos)@.len() >= 1,
        ensures
            final(pos)@ == old(pos)@,
            line_views(final(items)@) == line_views(old(items)@).push(
                line_of(*item, old(pos)@, self@.cursor),
            ),
    {
        let indent = indentation(pos.len() - 1);
        let (status, status_color) = marker(item);
        let text_color = if same_path(pos, &self.map.position) {
            Color::Cyan
        } else if item.hidden {
            Color::DarkGray
        } else {
            Color::White
        };
        items.push(
            ListLine {
                indent,
                marker: status,
                marker_color: status_color,
                text: item.text.clone(),
                text_color,
            },
        );
        assert(line_views(final(items)@) =~= line_views(old(items)@).push(
            line_of(*item, old(pos)@, self@.cursor),
        ));
    }

    /// Appends to `items` the lines of `item`, which is at `iter_state`, and
    /// of what is below it, and counts in `lines` the lines met.
    pub fn item_to_list_items(
        &self,
        item: &Item,
        items: &mut Vec<ListLine>,
        iter_state: &mut Vec<usize>,
        lines: &mut u16,
    )
        requires
            old(iter_state)@.len() >= 1,
            *old(lines) + subtree_paths(*item, old(iter_state)@, self@.display_hidden).len()
                <= u16::MAX,
        ensures
            final(iter_state)@ == old(iter_state)@,
            *final(lines) == *old(lines) + subtree_paths(
                *item,
                old(iter_state)@,
                self@.display_hidden,
            ).len(),
            line_views(final(items)@) == line_views(old(items)@) + subtree_lines(
                *item,
                old(iter_state)@,
                self@.frame(),
                *old(lines) as int,
            ),
        decreases item, 0nat,
    {
        if !self.display_hidden && item.hidden {
            assert(line_views(items@) =~= line_views(old(items)@) + Seq::empty());
            return ;
        }
        *lines = *lines + 1;
        let ghost own = if in_window(self@.frame().window, *lines as int) {
            seq![line_of(*item, iter_state@, self@.cursor)]
        } else {
            Seq::empty()
        };
        if self.map.window_buffer.is_in_view(*lines) {
            self.item_as_widget(item, items, iter_state);
        }
        assert(line_views(items@) =~= line_views(old(items)@) + own);
        self.list_forest(&item.sub_items, items, iter_state, lines);
        assert(line_views(items@) =~= line_views(old(items)@) + (own + forest_lines(
            item.sub_items@,
            old(iter_state)@,
            self@.frame(),
            *old(lines) + 1,
        )));
    }

    /// Appends to `items` the lines of the siblings `list`, whose parent is
    /// at `iter_state`, and counts in `lines` the lines met.
    fn list_forest(
        &self,
        list: &Vec<Item>,
        items: &mut Vec<ListLine>,
        iter_state: &mut Vec<usize>,
        lines: &mut u16,
    )
        requires
            *old(lines) + forest_paths(list@, old(iter_state)@, self@.display_hidden).len()
                <= u16::MAX,
        ensures
            final(iter_state)@ == old(iter_state)@,
            *final(lines) == *old(lines) + forest_paths(
                list@,
                old(iter_state)@,
                self@.display_hidden,
            ).len(),
            line_views(final(items)@) == line_views(old(items)@) + forest_lines(
                list@,
                old(iter_state)@,
                self@.frame(),
                *old(lines) as int,
            ),
        decreases list, 1nat,
    {
        let ghost prefix = iter_state@;
        let ghost hidden = self@.display_hidden;
        let mut i: usize = 0;
        assert(line_views(items@) =~= line_views(old(items)@) + Seq::empty());
        while i < list.len()
            invariant
                i <= list.len(),
                iter_state@ == prefix,
                prefix == old(iter_state)@,
                hidden == self@.display_hidden,
                *old(lines) + forest_paths(list@, prefix, hidden).len() <= u16::MAX,
                *lines == *old(lines) + forest_paths(list@.take(i as int), prefix, hidden).len(),
                line_views(items@) == line_views(old(items)@) + forest_lines(
                    list@.take(i as int),
                    prefix,
                    self@.frame(),
                    *old(lines) as int,
                ),
            decreases list.len() - i,
        {
            let ghost done = list@.take(i as int);
            let ghost next = list@.take(i + 1);
            let ghost drawn = line_views(items@);
            let ghost counted = *lines;
            proof {
                assert(next.drop_last() =~= done);
                assert(next.last() == list@[i as int]);
                lemma_forest_paths_grow(list@, prefix, hidden, i + 1);
            }
            iter_state.push(i);
            self.item_to_list_items(&list[i], items, iter_state, lines);
            iter_state.pop();
            proof {
                assert(iter_state@ =~= prefix);
                assert(line_views(items@) =~= line_views(old(items)@) + forest_lines(
                    next,
                    prefix,
                    self@.frame(),
                    *old(lines) as int,
                ));
            }
            i = i + 1;
        }
        assert(list@.take(list.len() as int) =~= list@);
    }

    /// Whether the list has few enough lines for `get_list` to count them.
    pub fn can_list(&self) -> (ok: bool)
        ensures
            ok == (valid_paths(self@.items, self@.display_hidden).len() <= u16::MAX),
    {
        let all = enumerate_items(&self.items, self.display_hidden);
        all.len() <= 65535
    }

    /// The lines of the list panel: those of the shown items whose line
    /// number is inside the window.
    pub fn get_list(&self) -> (items: Vec<ListLine>)
        requires
            valid_paths(self@.items, self@.display_hidden).len() <= u16::MAX,
        ensures
            line_views(items@) == forest_lines(self@.items, Seq::empty(), self@.frame(), 0),
    {
        let mut iter_state: Vec<usize> = Vec::new();
        let mut items: Vec<ListLine> = Vec::new();
        let mut lines: u16 = 0;
        self.list_forest(&self.items, &mut items, &mut iter_state, &mut lines);
        assert(line_views(items@) =~= Seq::empty() + forest_lines(
            self@.items,
            Seq::empty(),
            self@.frame(),
            0,
        ));
        items
    }
}

impl Navigator {
    /// The current position.
    pub fn position(&self) -> (cursor: &Vec<usize>)
        ensures
            cursor@ == self@.cursor,
    {
        &self.map.position
    }

    /// The map of valid positions, in rendering order.
    pub fn valid_positions(&self) -> (paths: &Vec<Vec<usize>>)
        ensures
            views(paths@) == self@.paths,
    {
        &self.map.valid_positions
    }

    /// The scrolling window.
    pub fn window_buffer(&self) -> (window: WindowBufferBounds)
        ensures
            window == self@.window,
    {
        self.map.window_buffer
    }

    /// The diagnostic log, oldest message first.
    pub fn log(&self) -> (buffer: &Vec<LogMsg>)
        ensures
            log_views(buffer@) == self@.log,
    {
        &self.d_buffer
    }

    /// Whether hidden items are displayed.
    pub fn display_hidden(&self) -> (flag: bool)
        ensures
            flag == self@.display_hidden,
    {
        self.display_hidden
    }

    /// The action that the last key asked for.
    pub fn action(&self) -> (action: NavAction)
        ensures
            action == self@.action,
    {
        self.action
    }

    /// The snapshot of the item tree.
    pub fn items(&self) -> (items: &Vec<Item>)
        ensures
            items@ == self@.items,
    {
        &self.items
    }
}

} // verus!
