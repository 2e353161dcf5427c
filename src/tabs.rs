//! The state of the application's tabs that the composition reads.

use vstd::prelude::*;

verus! {

/// The tabs of the application window.
#[derive(Clone, Copy, Debug, PartialEq, Eq, Structural)]
pub enum Tab {
    Integrations,
    Status,
    Chatting,
    Options,
}

/// The chat input line.
#[derive(Clone, Debug)]
pub struct ChatTab {
    pub message: String,
    pub is_focused: bool,
}

/// Which sources feed the chatbox.
#[derive(Clone, Copy, Debug, PartialEq, Eq, Structural)]
pub struct IntegrationsTab {
    pub personal_status_enabled: bool,
    pub component_stats_enabled: bool,
    pub network_stats_enabled: bool,
    pub current_time_enabled: bool,
    pub medialink_enabled: bool,
    pub window_activity_enabled: bool,
}

/// The status message being typed.
#[derive(Clone, Debug)]
pub struct StatusTab {
    pub new_message: String,
}

} // verus!
