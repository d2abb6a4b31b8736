//! Support logic of an editor extension for Laravel projects: finding or
//! installing the language server, styling completion labels, and the
//! replies of its slash commands.
pub mod commands;
pub mod labels;
pub mod provision;
