//! A static-analysis rule that decides, for each program binding, whether it
//! defines a UI component and, if so, whether that component carries a
//! statically derivable display name. Components without one are reported so
//! that they do not show up unlabeled in developer tooling.

pub mod ast;
pub mod classify;
pub mod config;
pub mod laws;
pub mod no_duplicates;
pub mod render;
pub mod resolve;
pub mod rule;
pub mod semantic;
pub mod wrapper;
