//! Verified core of an interactive terminal client for GitHub's REST API.
//!
//! The library holds everything that can be decided or computed without
//! touching the network or the terminal: the data model of the two API
//! responses, the error taxonomy, request-URL and header construction,
//! rendering of profiles and messages, and the decision logic of the
//! interactive menu loop. The surrounding binary performs the HTTP calls
//! and the prompts and feeds their outcomes back into these functions.

pub mod error;
pub mod flow;
pub mod github;
pub mod model;
pub mod text;
