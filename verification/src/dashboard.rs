//! Plain data handed to the excluded view layer.
//!
//! The rendering itself (widgets, progress bars, panel layout) lives with
//! the view code outside this library; what is kept here is the data the
//! views consume and the error rendering they display.

use vstd::prelude::*;

verus! {

/// Whether a dashboard data source could be reached.
#[derive(Clone, Debug, PartialEq, Eq)]
pub enum ConnectionStatus {
    Connected,
    Disconnected,
    Unknown,
}

/// What an agent is currently doing.
#[derive(Clone, Debug, PartialEq, Eq)]
pub enum AgentStatus {
    Active,
    Idle,
    Error(String),
}

/// Tokens an agent has consumed and produced.
#[derive(Clone, Debug, PartialEq, Eq)]
pub struct TokenUsage {
    pub input_tokens: u64,
    pub output_tokens: u64,
}

/// One rig as the dashboard lists it: name and filesystem location.
#[derive(Clone, Debug, PartialEq, Eq)]
pub struct RigInfo {
    pub name: String,
    pub path: String,
}

/// State changes a dashboard announces to its subscribers.
#[derive(Clone, Debug)]
pub enum DashboardEvent {
    /// Dashboard data was refreshed.
    DataRefreshed,
    /// Connection status changed.
    ConnectionChanged(ConnectionStatus),
    /// An agent was added.
    AgentAdded(String),
    /// An agent was removed.
    AgentRemoved(String),
    /// An agent's status changed.
    AgentStatusChanged { name: String, status: AgentStatus },
}

/// Why dashboard data could not be served.
#[derive(Debug, Clone, PartialEq, Eq)]
pub enum DashboardError {
    NotAvailable,
    FetchFailed(String),
    ParseError(String),
}

impl DashboardError {
    /// The short rendering of the error.
    pub open spec fn message_spec(&self) -> Seq<char> {
        match self {
            DashboardError::NotAvailable => "Dashboard not available"@,
            DashboardError::FetchFailed(msg) => "Fetch failed: "@ + msg@,
            DashboardError::ParseError(msg) => "Parse error: "@ + msg@,
        }
    }

    /// Renders the error on one line.
    pub fn message(&self) -> (r: String)
        ensures
            r@ == self.message_spec(),
    {
        match self {
            DashboardError::NotAvailable => String::from_str("Dashboard not available"),
            DashboardError::FetchFailed(msg) => {
                let mut s = String::from_str("Fetch failed: ");
                s.append(msg.as_str());
                s
            },
            DashboardError::ParseError(msg) => {
                let mut s = String::from_str("Parse error: ");
                s.append(msg.as_str());
                s
            },
        }
    }
}

/// Formats dashboard data for display.
pub struct DashboardFormatter;

impl DashboardFormatter {
    /// The full-screen rendering of a failed dashboard load.
    pub open spec fn error_text_spec(error: DashboardError) -> Seq<char> {
        match error {
            DashboardError::NotAvailable => "Dashboard unavailable\n\nRun 'gt up' to start Gastown"@,
            DashboardError::FetchFailed(msg) => "Failed to load dashboard\n\n"@ + msg@,
            DashboardError::ParseError(msg) => "Failed to parse dashboard data\n\n"@ + msg@,
        }
    }

    /// Renders a failed dashboard load for the view layer.
    pub fn format_error(error: &DashboardError) -> (r: String)
        ensures
            r@ == DashboardFormatter::error_text_spec(*error),
    {
        match error {
            DashboardError::NotAvailable => String::from_str(
                "Dashboard unavailable\n\nRun 'gt up' to start Gastown",
            ),
            DashboardError::FetchFailed(msg) => {
                let mut s = String::from_str("Failed to load dashboard\n\n");
                s.append(msg.as_str());
                s
            },
            DashboardError::ParseError(msg) => {
                let mut s = String::from_str("Failed to parse dashboard data\n\n");
                s.append(msg.as_str());
                s
            },
        }
    }
}

/// The connection state a dashboard reports after probing its source.
pub fn connection_status_for(available: bool) -> (r: ConnectionStatus)
    ensures
        available ==> r == ConnectionStatus::Connected,
        !available ==> r == ConnectionStatus::Disconnected,
{
    if available {
        ConnectionStatus::Connected
    } else {
        ConnectionStatus::Disconnected
    }
}

} // verus!
