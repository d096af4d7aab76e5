//! A terminal system-summary panel: a logo on the left, labelled facts about
//! the machine on the right. The layout is measured in display columns, the
//! rows come from the configuration resolved against the facts, and each
//! step states what it produces.

pub mod art;
pub mod block;
pub mod collectors;
pub mod compose;
pub mod config;
pub mod facts;
pub mod lines;
pub mod localization;
pub mod plan;
pub mod registry;
pub mod release;
pub mod render;
pub mod scan;
pub mod style;
pub mod text;
pub mod width;
