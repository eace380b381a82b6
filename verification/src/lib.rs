//! The library of RestDeck, a terminal HTTP client: saved requests and
//! environments, the editors of the request pane, variable substitution,
//! what is sent for a request and shown of its answer, and the handling of
//! keys, each with a proved contract.
pub mod text;
pub mod vars;
pub mod editor;
pub mod app;
pub mod http;
pub mod events;
pub mod laws;
pub mod outcomes;
pub mod screen;
