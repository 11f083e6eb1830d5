//! The choices of the interactive menus, and the commands they send to the
//! sampling engine.
use vstd::prelude::*;
use crate::engine::Command;
use crate::record::RecordKind;

verus! {

/// The main menu.
#[derive(Debug, Clone, Copy, PartialEq, Eq, Structural)]
pub enum MenuChoice {
    StartRecording,
    StopRecording,
    ViewRecords,
    LiveFeed,
    Quit,
}

/// The menu of record kinds to view.
#[derive(Debug, Clone, Copy, PartialEq, Eq, Structural)]
pub enum RecordMenuChoice {
    View(RecordKind),
    Back,
}

/// How to query the records of a kind.
#[derive(Debug, Clone, Copy, PartialEq, Eq, Structural)]
pub enum QueryMode {
    All,
    ByRange,
    Back,
}

pub open spec fn menu_choice_of(n: u8) -> Option<MenuChoice> {
    if n == 1 {
        Some(MenuChoice::StartRecording)
    } else if n == 2 {
        Some(MenuChoice::StopRecording)
    } else if n == 3 {
        Some(MenuChoice::ViewRecords)
    } else if n == 4 {
        Some(MenuChoice::LiveFeed)
    } else if n == 5 {
        Some(MenuChoice::Quit)
    } else {
        None
    }
}

pub open spec fn record_menu_choice_of(n: u8) -> Option<RecordMenuChoice> {
    if n == 1 {
        Some(RecordMenuChoice::View(RecordKind::Sys))
    } else if n == 2 {
        Some(RecordMenuChoice::View(RecordKind::Component))
    } else if n == 3 {
        Some(RecordMenuChoice::View(RecordKind::Ram))
    } else if n == 4 {
        Some(RecordMenuChoice::View(RecordKind::Disk))
    } else if n == 5 {
        Some(RecordMenuChoice::Back)
    } else {
        None
    }
}

pub open spec fn query_mode_of(n: u8) -> Option<QueryMode> {
    if n == 1 {
        Some(QueryMode::All)
    } else if n == 2 {
        Some(QueryMode::ByRange)
    } else if n == 3 {
        Some(QueryMode::Back)
    } else {
        None
    }
}

impl MenuChoice {
    /// The choice numbered `n`, 1 to 5; `None` for any other number.
    pub fn from_number(n: u8) -> (r: Option<MenuChoice>)
        ensures
            r == menu_choice_of(n),
    {
        match n {
            1 => Some(MenuChoice::StartRecording),
            2 => Some(MenuChoice::StopRecording),
            3 => Some(MenuChoice::ViewRecords),
            4 => Some(MenuChoice::LiveFeed),
            5 => Some(MenuChoice::Quit),
            _ => None,
        }
    }

    /// The command sent when the choice is taken: recording starts quietly,
    /// stops, or starts with echo for the live feed.
    pub fn command_on_enter(&self) -> (r: Option<Command>)
        ensures
            *self == MenuChoice::StartRecording ==> r == Some(Command::Start),
            *self == MenuChoice::StopRecording ==> r == Some(Command::Stop),
            *self == MenuChoice::LiveFeed ==> r == Some(Command::StartVerbose),
            *self == MenuChoice::ViewRecords || *self == MenuChoice::Quit ==> r is None,
    {
        match self {
            MenuChoice::StartRecording => Some(Command::Start),
            MenuChoice::StopRecording => Some(Command::Stop),
            MenuChoice::LiveFeed => Some(Command::StartVerbose),
            _ => None,
        }
    }

    /// The command sent on leaving the choice's screen: leaving the live feed
    /// goes on recording, without echo.
    pub fn command_on_leave(&self) -> (r: Option<Command>)
        ensures
            *self == MenuChoice::LiveFeed ==> r == Some(Command::Start),
            *self != MenuChoice::LiveFeed ==> r is None,
    {
        match self {
            MenuChoice::LiveFeed => Some(Command::Start),
            _ => None,
        }
    }
}

impl RecordMenuChoice {
    /// The choice numbered `n`: 1 system, 2 components, 3 memory, 4 disks,
    /// 5 back; `None` for any other number.
    pub fn from_number(n: u8) -> (r: Option<RecordMenuChoice>)
        ensures
            r == record_menu_choice_of(n),
    {
        match n {
            1 => Some(RecordMenuChoice::View(RecordKind::Sys)),
            2 => Some(RecordMenuChoice::View(RecordKind::Component)),
            3 => Some(RecordMenuChoice::View(RecordKind::Ram)),
            4 => Some(RecordMenuChoice::View(RecordKind::Disk)),
            5 => Some(RecordMenuChoice::Back),
            _ => None,
        }
    }
}

impl QueryMode {
    /// The mode numbered `n`: 1 all records, 2 by time range, 3 back; `None`
    /// for any other number.
    pub fn from_number(n: u8) -> (r: Option<QueryMode>)
        ensures
            r == query_mode_of(n),
    {
        match n {
            1 => Some(QueryMode::All),
            2 => Some(QueryMode::ByRange),
            3 => Some(QueryMode::Back),
            _ => None,
        }
    }
}

} // verus!
