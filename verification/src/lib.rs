//! Reader and verifier for the nested binary container formats used to
//! distribute signed application content on a game console platform:
//! partition archives (plain and hashed), content-archive headers with
//! encrypted regions, and program metadata with a signed permission
//! certificate.

pub mod args;
pub mod bytes;
pub mod caps;
pub mod error;
pub mod hexstr;
pub mod hfs0;
pub mod keys;
pub mod nca;
pub mod npdm;
pub mod pfs0;
pub mod settings;

