//! Configuration resolution and validation for the `gwa` project scaffolder.
//!
//! A project is described by a configuration record. Its values come from a
//! source of explicit values (the command line, a mapping handed over by a
//! host, or the project name alone) and, where the source is silent, from
//! derivation rules. This library resolves a source into a record, checks
//! it, runs the interactive flow as a state machine, and flattens the record
//! into the request for the template generator. It reads no input and
//! writes no output: that is left to the program around it.
//!
//! - `field`: the entries of a source and their loosely typed values
//! - `text`: character-level helpers
//! - `validators`: the acceptability checks
//! - `defaults`: the derivation rules
//! - `record`: the configuration record
//! - `source`: the sources of explicit values
//! - `resolver`: resolution, and what holds of it
//! - `interactive`: the interactive flow
//! - `handoff`: the request for the template generator
//! - `adapters`: what each entry surface does before the handoff
//! - `error`: the failures and their messages

pub mod adapters;
pub mod defaults;
pub mod error;
pub mod field;
pub mod handoff;
pub mod interactive;
pub mod record;
pub mod resolver;
pub mod source;
pub mod text;
pub mod validators;
