//! Decoder for the runtime type-reflection tables that a 64-bit process keeps
//! in its own memory: classes with their fields, enumerations with their
//! values, and typedef aliases.
//!
//! The decoder never touches the foreign process itself. It is handed a read
//! function, asks it for byte ranges at absolute addresses, and follows the
//! addresses it finds in the records it has already read. It never writes,
//! and the addresses of code that the records hold are kept as numbers.
//!
//! - [`address`]: addresses in the foreign process, null included.
//! - [`error`]: the ways in which a read or a decode fails.
//! - [`layout`]: the byte layout of the foreign records.
//! - [`memory`]: a fixed picture of foreign memory, in terms of which the
//!   contracts say what is decoded.
//! - [`reader`]: exact-length byte ranges, records and strings, through a
//!   read function.
//! - [`classes`], [`enums`], [`typedefs`]: the three decoders.
//! - [`type_info`]: the root record and the snapshot composed from it.
//! - [`image`]: a memory image that the library holds, and its decoding.

pub mod address;
pub mod classes;
pub mod enums;
pub mod error;
pub mod image;
pub mod layout;
pub mod memory;
pub mod reader;
pub mod type_info;
pub mod typedefs;
