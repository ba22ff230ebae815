//! Structured version metadata extracted from the verbose version banner of
//! the `rustc` compiler.
//!
//! [`version_meta_for`] takes the text that `rustc -vV` prints and gives the
//! version of the compiler, its release channel, the commit it was built
//! from, the host triple and the version of LLVM. Running the compiler is
//! left to the caller.

pub mod banner;
pub mod channel;
pub mod decimal;
pub mod depth;
pub mod errors;
pub mod llvm;
pub mod meta;
pub mod text;
pub mod version;

pub use channel::Channel;
pub use errors::{Error, LlvmVersionParseError};
pub use llvm::LLVMVersion;
pub use meta::{version_meta_for, VersionMeta};
pub use version::{Identifier, Version};
