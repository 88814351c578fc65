//! Decision layer between a human operator and an account/authorisation
//! backend: resolves login credentials from environment, config file or
//! interactive prompt under a strict precedence policy, renders pending
//! authorisation requests for an explicit allow/deny decision, and formats
//! the list of already-authorised applications.

pub mod consent;
pub mod creds;
pub mod listing;
pub mod table;
pub mod text;
pub mod types;
