//! A bootstrap sequence for a local deployment, written without any I/O of its own.
//!
//! The sequence makes sure that a configuration directory and an environment
//! file exist, stops right after it had to generate the file, loads the
//! environment, optionally prepares a PostgreSQL database through `psql`, and
//! finally hands over to a delegate script run by `python3`.
//!
//! Everything that touches the outside world is described as an
//! [`protocol::Action`] that the caller carries out; what came of it is
//! reported back as an [`protocol::Event`]. The decisions in between are
//! verified.
//!
//! - [`keys`], [`paths`], [`template`]: what the environment file declares,
//!   where things lie, and the text of a generated file.
//! - [`environment`]: the loaded environment and the database credentials.
//! - [`command`], [`protocol`], [`state`], [`outcome`]: the values that pass
//!   between the sequence and its caller.
//! - [`provisioner`], [`loader`], [`database`], [`delegate`]: the four
//!   components, each with its transition function.
//! - [`pipeline`]: the components in sequence.
//! - [`laws`]: what is proved of every transition.
//! - [`world`], [`runs`]: a model of the caller and the disk, and what is
//!   proved of every run in it.

pub mod command;
pub mod database;
pub mod delegate;
pub mod environment;
pub mod keys;
pub mod laws;
pub mod loader;
pub mod outcome;
pub mod paths;
pub mod pipeline;
pub mod protocol;
pub mod provisioner;
pub mod runs;
pub mod state;
pub mod template;
pub mod world;
