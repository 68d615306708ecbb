//! A timed arithmetic drill: the configuration of a session, the generator of
//! its questions and the state machine that runs a test and keeps the score.

pub mod app;
pub mod app_state;
pub mod clock;
pub mod decimal;
mod draw;
pub mod operation;
pub mod question;
pub mod session;
pub mod testconfig;
pub mod text;
