//! Activity reconciliation and device tracking for a dynamic-island style
//! shell.
//!
//! A module of the shell shows a changing set of activities, one for each
//! instance that its configuration lists on a window. This crate holds the
//! part of a module that decides:
//!
//! - [`config`] resolves a configuration in three tiers: compiled-in
//!   defaults, the fields that all instances share, and the overlay of each
//!   instance.
//! - [`diff`] compares the activities that exist with the instance counts
//!   that the configuration asks for.
//! - [`watcher`] follows the device of one activity over time.
//! - [`coordinator`] applies registration events to the [`registry`].
//! - [`runtime`] keeps the books of one generation of tasks.
//! - [`module`] ties these together for the power module, and [`device`],
//!   [`label`], [`graph`], [`markup`] and [`cli`] say what the readings of a
//!   device and the words of a command line mean.
//!
//! Nothing here touches a bus, a clock or a screen. The caller makes the
//! calls that a function asks for and hands back what came of them.

pub mod cli;
pub mod config;
pub mod coordinator;
pub mod device;
pub mod diff;
pub mod graph;
pub mod identifier;
pub mod label;
pub mod markup;
pub mod module;
pub mod registry;
pub mod runtime;
pub mod text;
pub mod watcher;
pub mod windows;
