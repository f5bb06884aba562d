//! Git Review In Terminal: the review-session logic of a terminal code-review tool.
//!
//! The library holds the parts of the tool that decide and compute: reading the
//! output of `git diff`, merging review progress across sessions, the file
//! checklist, translating ANSI-coloured diff output into styled text, the
//! configuration rules, themes, and the key, mouse and layout rules of the
//! terminal interface.
pub mod chars;
pub mod style;
pub mod ansi;
pub mod git;
pub mod paths;
pub mod session;
pub mod checklist;
pub mod config;
pub mod theme;
pub mod open_command;
pub mod clipboard;
pub mod worktree;
pub mod cli;
pub mod tui;
pub mod run_loop;
