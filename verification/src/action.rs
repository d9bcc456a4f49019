//! The action bus: every interface event, notification and internal update
//! travels as one of these.

use vstd::prelude::*;

use crate::game::{AccountLogEntry, CharacterState, GEOrder, GETransaction, WorldEvent};

verus! {

/// All interface and game events of the application.
#[derive(Clone, Debug)]
pub enum Action {
    /// Game logic tick.
    Tick,
    /// Render frame.
    Render,
    /// Terminal resized to `(width, height)` cells.
    Resize(u16, u16),
    /// Suspend the application.
    Suspend,
    /// Resume after suspend.
    Resume,
    /// Quit the application.
    Quit,
    /// Clear the terminal screen.
    ClearScreen,
    /// An error message to display.
    Error(String),
    /// Show help.
    Help,
    /// Move focus to the next element.
    FocusNext,
    /// Move focus to the previous element.
    FocusPrev,
    /// Toggle the footer log panel.
    ToggleLog,
    /// Toggle the maximised view of the selected character card.
    MaximizeCharacter,
    /// Attempting to connect the WebSocket.
    WsConnect,
    /// WebSocket connected and authenticated.
    WsConnected,
    /// WebSocket disconnected, with the reason.
    WsDisconnected(String),
    /// Reconnecting the WebSocket after a delay.
    WsReconnect,
    /// A character performed an action.
    AccountLog(AccountLogEntry),
    /// Snapshot of the characters currently online.
    OnlineCharacters(Vec<CharacterState>),
    /// A world event appeared.
    EventSpawn(WorldEvent),
    /// A world event expired or was defeated (its code).
    EventRemoved(String),
    /// A Grand Exchange order was posted.
    GEOrderCreated(GEOrder),
    /// A Grand Exchange transaction completed.
    GETransactionCompleted(GETransaction),
    /// A character earned an achievement.
    AchievementUnlocked { character: String, achievement_name: String },
    /// A server-wide announcement.
    Announcement(String),
    /// Map tiles fetched and their sprites settled.
    MapsFetched,
    /// Characters fetched from the REST API at startup.
    CharactersFetched(Vec<CharacterState>),
    /// Swarm demand from the local bot API, as `(item code, quantity)`.
    SwarmDemandFetched(Vec<(String, u32)>),
    /// A raw WebSocket message.
    RawWsMessage(String),
    /// A system log event from a background task.
    SystemLog { tag: String, message: String },
}

} // verus!
