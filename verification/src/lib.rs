//! Verified core of Mesh, a lightweight Matrix client.
//!
//! The client core is in [`client`] (rooms, members, history, Secure Backup),
//! [`session`] (logging in and restoring), [`verification`] (emoji verification of
//! devices), [`call`] (1:1 voice calls) and [`audio`] (their sound). The frontend
//! is in [`state`], [`update`] (what every message does) and [`panels`] (what every
//! screen shows), with [`theme`], [`timeline`], [`widgets`] and [`rain`].
//!
//! Nothing here talks to the network, to a device or to the disk. Where such work
//! is due, the core names it as a plain value and is told the outcome.

pub mod audio;
pub mod call;
pub mod client;
pub mod clock;
pub mod events;
pub mod ids;
pub mod order;
pub mod panels;
pub mod paths;
pub mod rain;
pub mod session;
pub mod state;
pub mod text;
pub mod theme;
pub mod timeline;
pub mod update;
pub mod verification;
pub mod widgets;
