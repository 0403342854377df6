//! Subnet calculator: the facts that follow from one CIDR expression.
//!
//! [`subnet::get_subnet`] takes the text of a network in CIDR notation
//! (address, `/`, prefix length) and answers with the address family, the
//! prefix length, the number of addresses and the first and last address of
//! the block. The text is read by the `ipnetwork` crate, which also masks
//! the address; everything that is decided around those calls is verified.
//!
//! - [`count`]: powers of two in 128 bits, without overflow.
//! - [`range`]: netmasks, the first and last address of a block, and what
//!   holds of them.
//! - [`text`]: dotted-decimal notation.
//! - [`cidr`]: the network behind a text, and the calls into `ipnetwork`.
//! - [`subnet`]: the answer to a query, and what holds of every answer.

pub mod cidr;
pub mod count;
pub mod range;
pub mod subnet;
pub mod text;
