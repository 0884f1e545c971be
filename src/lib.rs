//! Annotation sessions over a set of multiple-choice questions: the question
//! records, progress accounting, wrap-around navigation and the session state
//! machine that turns one input command into the next state.

pub mod navigation;
pub mod progress;
pub mod question;
pub mod session;

mod clock;
