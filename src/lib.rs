//! Intake for sealed letters of a federated mail relay: identifiers,
//! addresses and blobs with their text encodings, the letter model, the
//! acceptance policy and the engine that checks a letter against it.

pub mod codec;
pub mod identifier;
pub mod address;
pub mod attachment;
pub mod blob;
pub mod ciphers;
pub mod command;
pub mod configuration;
pub mod labels;
pub mod letter;
pub mod logging;
pub mod message;
pub mod moderation;
pub mod service;
pub mod settings;
pub mod state;
pub mod validation;
