//! Decoding of the item definitions stored in a RuneScape 3 game cache.
//!
//! An item definition is a stream of entries. Each entry is an opcode byte
//! followed by a value whose layout the opcode determines; opcode 0 ends the
//! stream. The library reads these streams from bytes into [`ItemConfig`]
//! values, and every reader carries a contract over the bytes it consumes.
//!
//! - `buffer`: the byte cursor and the readers of primitive values.
//! - `item_config_fields`: the structures that stand in fields of a definition.
//! - `paramtable`: tables of parameters.
//! - `item_config`: the definition, the entry table and the decoder.
//! - `laws`: properties of the decoder that hold for every input.

pub mod buffer;
pub mod entry_laws;
pub mod item_config;
pub mod item_config_fields;
pub mod laws;
pub mod paramtable;

pub use buffer::{Buffer, DecodeError};
pub use item_config::ItemConfig;
