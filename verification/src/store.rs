//! What passes between the navigator and the item store: the changes that the
//! navigator asks for and the snapshots that come back.

use vstd::prelude::*;
use crate::term::TermEvent;
use crate::tree::{Item, ItemType};

verus! {

/// A change to one item, or to the list that an item is added to.
#[derive(Debug, PartialEq, Eq)]
pub enum ItemAction {
    CycleStatus,
    ToggleHidden,
    ToggleType,
    Add(ItemType, String),
    Remove,
}

/// An item action with its text as a sequence of characters.
pub enum ItemActionView {
    CycleStatus,
    ToggleHidden,
    ToggleType,
    Add(ItemType, Seq<char>),
    Remove,
}

impl View for ItemAction {
    type V = ItemActionView;

    open spec fn view(&self) -> ItemActionView {
        match self {
            ItemAction::CycleStatus => ItemActionView::CycleStatus,
            ItemAction::ToggleHidden => ItemActionView::ToggleHidden,
            ItemAction::ToggleType => ItemActionView::ToggleType,
            ItemAction::Add(kind, text) => ItemActionView::Add(*kind, text@),
            ItemAction::Remove => ItemActionView::Remove,
        }
    }
}

/// Work for the store. It always ends with saving the list and loading it
/// again; before that an item action may be applied at `location`, the
/// 1-based child ordinals of the item from the item itself up to the root
/// list, empty for the root list.
#[derive(Debug, PartialEq, Eq)]
pub enum StoreRequest {
    SaveAndReload,
    Act { location: Vec<usize>, action: ItemAction },
}

/// A store request over sequences.
pub enum StoreRequestView {
    SaveAndReload,
    Act { location: Seq<usize>, action: ItemActionView },
}

impl View for StoreRequest {
    type V = StoreRequestView;

    open spec fn view(&self) -> StoreRequestView {
        match self {
            StoreRequest::SaveAndReload => StoreRequestView::SaveAndReload,
            StoreRequest::Act { location, action } => StoreRequestView::Act {
                location: location@,
                action: action@,
            },
        }
    }
}

/// How loading the list ended: with the items and the text of the backing
/// file as read after the load, or with the reason of the failure.
#[derive(Debug, PartialEq, Eq)]
pub enum LoadOutcome {
    Loaded { items: Vec<Item>, contents: String },
    Failed { reason: String },
}

/// What the navigator needs from outside before it can go on.
#[derive(Debug, PartialEq, Eq)]
pub enum Effect {
    /// The event is dealt with; the session goes on or ends.
    Done { keep_running: bool },
    /// The text of the backing file is to be read and handed back.
    ReadContents,
    /// The list is to be loaded and handed back.
    Load,
    /// The store is to do this work and hand back how it went.
    Store(StoreRequest),
}

/// An effect over sequences.
pub enum EffectView {
    Done { keep_running: bool },
    ReadContents,
    Load,
    Store(StoreRequestView),
}

impl View for Effect {
    type V = EffectView;

    open spec fn view(&self) -> EffectView {
        match self {
            Effect::Done { keep_running } => EffectView::Done { keep_running: *keep_running },
            Effect::ReadContents => EffectView::ReadContents,
            Effect::Load => EffectView::Load,
            Effect::Store(request) => EffectView::Store(request@),
        }
    }
}

/// What is handed to the navigator: the next event of the queue, or the
/// answer to the effect that it asked for last.
#[derive(Debug, PartialEq, Eq)]
pub enum Reply {
    /// An event; `initial` is set until the first frame is drawn.
    Event { event: TermEvent, initial: bool },
    /// The text of the backing file.
    Contents(String),
    /// The outcome of a load.
    Loaded(LoadOutcome),
    /// The outcome of store work: the error of the save, if it failed, and
    /// the outcome of the load that followed.
    Stored { saved: Result<(), String>, outcome: LoadOutcome },
}

} // verus!
