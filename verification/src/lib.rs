//! CLInvoice: the records it keeps, how they are shown and exported to markdown, and the
//! decisions its commands make on the command line's arguments and the configuration.
pub mod args;
pub mod create;
pub mod export;
pub mod interactive;
pub mod laws;
pub mod markdown;
pub mod money;
pub mod retrieve;
pub mod sorting;
pub mod text;
pub mod time;
pub mod update;
pub mod views;
