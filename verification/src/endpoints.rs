//! One builder per API operation. Every builder is a pure function from
//! typed inputs to a request descriptor: it validates each constrained input,
//! assembles the path and query, selects the operation's fixed rate-limit
//! category, and fails fast with no partial descriptor.

pub mod accounts;
pub mod characters;
pub mod grand_exchange;
pub mod items;
pub mod maps;
pub mod monsters;
pub mod resources;
pub mod events;
pub mod server;
pub mod token;
