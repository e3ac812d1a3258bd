//! An agent loop over an agent thread: a builder for the agent's settings,
//! the handling of the events of a turn, a filter that simplifies events,
//! helpers that build the operations submitted to the thread, and the
//! decisions around them (authentication, workspace, interactive input).
pub mod adapters;
pub mod builder;
pub mod event_filter;
pub mod laws;
pub mod op_builder;
pub mod protocol;
pub mod session;
pub mod turn;
pub mod workspace;

pub use adapters::EventFilter;
pub use adapters::FilteredEvent;
pub use adapters::OpBuilder;
pub use builder::AgentBuilder;
pub use builder::AuthPlan;
pub use protocol::ElicitationAction;
pub use protocol::Event;
pub use protocol::EventMsg;
pub use protocol::Op;
pub use protocol::RequestId;
pub use protocol::ReviewDecision;
pub use protocol::TurnAbortReason;
pub use protocol::UserInput;
pub use session::read_session_input;
pub use session::SessionInput;
pub use turn::AgentError;
pub use turn::EventOutcome;
pub use turn::TurnState;
pub use workspace::resolve_config_workspace;
pub use workspace::resolve_workspace_hint;
pub use workspace::ConfigFileStatus;
pub use workspace::WorkspaceError;
pub use workspace::WorkspaceHint;
