//! The actions that key presses ask for, and the two input modes.

use vstd::prelude::*;
use crate::cursor::Relation;
use crate::term::{Key, TermEvent};

verus! {

/// Whether keys are read as commands or as text of a new item.
#[derive(Clone, Copy, Debug, PartialEq, Eq, Structural)]
pub enum NavMode {
    Navigate,
    Input,
}

/// What the navigator is asked to do.
#[derive(Clone, Copy, Debug, PartialEq, Eq, Structural)]
pub enum NavAction {
    MoveOut,
    Next,
    Prev,
    MoveIn,
    NoAction,
    Exit,
    ToggleShowHidden,
    CycleItemStatus,
    ToggleItemHidden,
    ToggleDebug,
    PreAddItem,
    AddItem,
    PreAddRootItem,
    AddRootItem,
    ToggleItemType,
    RemoveItem,
    GoToBottom,
    GoToTop,
    GoToRootLevel,
}

impl NavAction {
    /// The action bound to a character key.
    pub open spec fn for_char(c: char) -> NavAction {
        if c == 'D' {
            NavAction::ToggleDebug
        } else if c == 'h' {
            NavAction::MoveOut
        } else if c == 'j' {
            NavAction::Next
        } else if c == 'k' {
            NavAction::Prev
        } else if c == 'l' {
            NavAction::MoveIn
        } else if c == 'q' {
            NavAction::Exit
        } else if c == 'H' {
            NavAction::ToggleShowHidden
        } else if c == 'c' {
            NavAction::CycleItemStatus
        } else if c == 's' {
            NavAction::ToggleItemHidden
        } else if c == 't' {
            NavAction::ToggleItemType
        } else if c == 'a' {
            NavAction::PreAddItem
        } else if c == 'A' {
            NavAction::PreAddRootItem
        } else if c == 'R' {
            NavAction::RemoveItem
        } else if c == 'g' {
            NavAction::GoToTop
        } else if c == 'G' {
            NavAction::GoToBottom
        } else if c == '0' {
            NavAction::GoToRootLevel
        } else {
            NavAction::NoAction
        }
    }

    /// The action bound to an event in navigate mode: that of its key, and
    /// none for a tick or an unbound key.
    pub open spec fn for_event(event: TermEvent) -> NavAction {
        match event {
            TermEvent::Key(Key::Char(c)) => Self::for_char(c),
            TermEvent::Key(Key::Delete) => NavAction::RemoveItem,
            _ => NavAction::NoAction,
        }
    }

    /// The action bound to an event in navigate mode.
    pub fn from_event(event: TermEvent) -> (action: Self)
        ensures
            action == Self::for_event(event),
    {
        match event {
            TermEvent::Key(key) => match key {
                Key::Char(c) => {
                    if c == 'D' {
                        NavAction::ToggleDebug
                    } else if c == 'h' {
                        NavAction::MoveOut
                    } else if c == 'j' {
                        NavAction::Next
                    } else if c == 'k' {
                        NavAction::Prev
                    } else if c == 'l' {
                        NavAction::MoveIn
                    } else if c == 'q' {
                        NavAction::Exit
                    } else if c == 'H' {
                        NavAction::ToggleShowHidden
                    } else if c == 'c' {
                        NavAction::CycleItemStatus
                    } else if c == 's' {
                        NavAction::ToggleItemHidden
                    } else if c == 't' {
                        NavAction::ToggleItemType
                    } else if c == 'a' {
                        NavAction::PreAddItem
                    } else if c == 'A' {
                        NavAction::PreAddRootItem
                    } else if c == 'R' {
                        NavAction::RemoveItem
                    } else if c == 'g' {
                        NavAction::GoToTop
                    } else if c == 'G' {
                        NavAction::GoToBottom
                    } else if c == '0' {
                        NavAction::GoToRootLevel
                    } else {
                        NavAction::NoAction
                    }
                },
                Key::Delete => NavAction::RemoveItem,
                _ => NavAction::NoAction,
            },
            TermEvent::Tick => NavAction::NoAction,
        }
    }

    /// Whether the cursor and the window are brought up to date after the
    /// action.
    pub open spec fn is_movement(self) -> bool {
        match self {
            NavAction::MoveOut
            | NavAction::MoveIn
            | NavAction::Next
            | NavAction::Prev
            | NavAction::ToggleShowHidden
            | NavAction::RemoveItem
            | NavAction::GoToTop
            | NavAction::GoToBottom
            | NavAction::GoToRootLevel => true,
            _ => false,
        }
    }

    /// Whether the cursor and the window are brought up to date after the
    /// action.
    pub fn moves(self) -> (movement: bool)
        ensures
            movement == self.is_movement(),
    {
        match self {
            NavAction::MoveOut
            | NavAction::MoveIn
            | NavAction::Next
            | NavAction::Prev
            | NavAction::ToggleShowHidden
            | NavAction::RemoveItem
            | NavAction::GoToTop
            | NavAction::GoToBottom
            | NavAction::GoToRootLevel => true,
            _ => false,
        }
    }

    /// The line that the log gets when the action is taken, if it gets one.
    pub open spec fn announcement(self) -> Option<Seq<char>> {
        match self {
            NavAction::ToggleDebug => Some("Toggling debug mode"@),
            NavAction::NoAction => None,
            NavAction::MoveOut => Some("Moving out"@),
            NavAction::MoveIn => Some("Moving in"@),
            NavAction::Next => Some("Next item"@),
            NavAction::Prev => Some("Prev item"@),
            NavAction::Exit => None,
            NavAction::ToggleShowHidden => Some("Hidden toggled"@),
            NavAction::CycleItemStatus => Some("Cycling status"@),
            NavAction::ToggleItemHidden => Some("Toggling item hidden"@),
            NavAction::ToggleItemType => Some("Toggling item type at position"@),
            NavAction::PreAddItem => Some("Preparing to add item"@),
            NavAction::AddItem => Some("Adding item"@),
            NavAction::PreAddRootItem => Some("Preparing to add root item"@),
            NavAction::AddRootItem => Some("Adding root item"@),
            NavAction::RemoveItem => Some("Removing item at position"@),
            NavAction::GoToTop => Some("Top"@),
            NavAction::GoToBottom => Some("Bottom"@),
            NavAction::GoToRootLevel => Some("Root"@),
        }
    }

    /// The line that the log gets when the action is taken, if it gets one.
    pub fn log_text(self) -> (text: Option<&'static str>)
        ensures
            match text {
                Some(t) => self.announcement() == Some(t@),
                None => self.announcement() is None,
            },
    {
        match self {
            NavAction::ToggleDebug => Some("Toggling debug mode"),
            NavAction::NoAction => None,
            NavAction::MoveOut => Some("Moving out"),
            NavAction::MoveIn => Some("Moving in"),
            NavAction::Next => Some("Next item"),
            NavAction::Prev => Some("Prev item"),
            NavAction::Exit => None,
            NavAction::ToggleShowHidden => Some("Hidden toggled"),
            NavAction::CycleItemStatus => Some("Cycling status"),
            NavAction::ToggleItemHidden => Some("Toggling item hidden"),
            NavAction::ToggleItemType => Some("Toggling item type at position"),
            NavAction::PreAddItem => Some("Preparing to add item"),
            NavAction::AddItem => Some("Adding item"),
            NavAction::PreAddRootItem => Some("Preparing to add root item"),
            NavAction::AddRootItem => Some("Adding root item"),
            NavAction::RemoveItem => Some("Removing item at position"),
            NavAction::GoToTop => Some("Top"),
            NavAction::GoToBottom => Some("Bottom"),
            NavAction::GoToRootLevel => Some("Root"),
        }
    }

    /// The action that Enter makes of a pending one: a prepared addition
    /// becomes the addition itself.
    pub open spec fn promoted(self) -> NavAction {
        match self {
            NavAction::PreAddRootItem => NavAction::AddRootItem,
            NavAction::PreAddItem => NavAction::AddItem,
            other => other,
        }
    }

    /// For a step of the cursor: which entries of the map it may go to, and
    /// whether it takes the first of them or the last.
    pub open spec fn step(self) -> Option<(Relation, bool)> {
        match self {
            NavAction::MoveIn => Some((Relation::Child, true)),
            NavAction::Next => Some((Relation::Later, true)),
            NavAction::Prev => Some((Relation::Earlier, false)),
            NavAction::GoToTop => Some((Relation::Sibling, true)),
            NavAction::GoToBottom => Some((Relation::Sibling, false)),
            NavAction::GoToRootLevel => Some((Relation::SameRoot, true)),
            _ => None,
        }
    }

    /// The warning that the log gets when the cursor cannot take the step.
    pub open spec fn refusal(self) -> Seq<char> {
        match self {
            NavAction::MoveIn => "Horizontal positional overflow avoided"@,
            NavAction::Next | NavAction::GoToBottom => "Vertical position overflow avoided"@,
            NavAction::Prev | NavAction::GoToTop => "Vertical position underflow avoided"@,
            _ => "Horizontal positional underflow avoided"@,
        }
    }
}

} // verus!
