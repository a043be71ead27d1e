//! Paper backups of secrets: passphrase encryption of a byte string, and the
//! layout of the resulting envelope as a QR symbol on a printable page.

pub mod codec;
pub mod convenience;
pub mod document;
pub mod error;
pub mod page;
pub mod symbol;
pub mod text;
