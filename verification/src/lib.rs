//! Binary wire-format layer for an anonymity-network protocol suite.
//!
//! The library defines the strongly typed values that cross the wire --
//! variable-width integers, length-prefixed UTF-8 strings, millisecond
//! timestamps, fixed-size byte blobs, algorithm-tagged signature material and
//! a tagged certificate container -- together with a uniform serialize /
//! deserialize contract that encodes everything in network byte order.

pub mod byteorder;
pub mod certificate;
pub mod date;
pub mod endianio;
pub mod i2p_date;
pub mod i2p_hash;
pub mod i2p_integer;
pub mod i2p_string;
pub mod private_key;
pub mod public_key;
pub mod serialize;
pub mod session_key;
pub mod session_tag;
pub mod signature;
pub mod simple_data_structure;
