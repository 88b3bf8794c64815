//! Desktop session management for a remote desktop service on Linux.
//!
//! The service gives a remote user a desktop: that of the user who is logged in, an X session of
//! its own where nobody is, or a Wayland session that the display manager is asked to start.
//!
//! This library takes the decisions; it touches no file and starts no process. Each task that
//! needs the system is a row of steps. A step says what has to be done, and holds what is needed to
//! do it. One function for each task takes a step and what came of it and gives the next step; a
//! reply that does not answer the step changes nothing. The contracts say what the next step is,
//! and the laws (the proof functions whose names begin with `law_`) what a task as a whole comes
//! to, whatever the system answers.
//!
//! - `login`: what a request for a desktop is answered.
//! - `manager`: the seat, its user, and the session of the service.
//! - `xsession`, `session_thread`, `x11`, `xserver`, `children`, `command`: an X session, from the
//!   password to the end of its processes.
//! - `wayland`, `session_exec`, `signal`: a Wayland session, and the request for it.
//! - `display_manager`, `pam_service`: the services of the system that take part.
//! - `text`, `number`: texts and numbers.
//! - `outside`: the calls whose behaviour is taken on trust.

pub mod children;
pub mod command;
pub mod display_manager;
pub mod login;
pub mod manager;
pub mod number;
pub mod outside;
pub mod pam_service;
pub mod session_exec;
pub mod session_thread;
pub mod signal;
pub mod text;
pub mod wayland;
pub mod x11;
pub mod xserver;
pub mod xsession;
