//! Interaction core of a terminal espresso-shot journal.
//!
//! The library holds the state machine behind the UI: classifying key input
//! into actions, tracking which pane has focus, navigating the bean list,
//! running the modal add-bean popup, and mutating the journal of beans and
//! shots. Terminal drawing and network glue live outside the library and only
//! read or feed this state.

pub mod app;
pub mod chat;
pub mod espresso;
pub mod journal;
