//! Verified core of the Simard operator dashboard: request validation,
//! text humanisation, authentication decisions, feedback de-duplication and
//! the rendered dashboard page.

pub mod text;
pub mod agent_log;
pub mod goals_status;
pub mod num;
pub mod hosts;
pub mod distributed;
pub mod brain_failures;
pub mod goals;
pub mod goals_view;
pub mod auth;
pub mod chat_store;
pub mod feedback;
pub mod chat;
pub mod chat_socket;
pub mod cycle_source;
pub mod current_work;
pub mod live_engineers;
pub mod enrichment;
pub mod journal;
pub mod creative_ideas;
pub mod goal_board;
pub mod traces;
pub mod index_html;
