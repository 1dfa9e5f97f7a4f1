//! Small documents in files, kept whole when their writers race: a settings
//! cache that is changed by sparse patches under an advisory lock, and the
//! signatures, templates, favourites, locations and word lists around it.
//!
//! The library decides and never touches the file system. It says where a
//! document lives, what a stored text means, what is to be done next for a
//! commit or an update, and what follows from how that came out. Whoever
//! runs it reads and writes the files.

pub mod cache;
pub mod codec;
pub mod commit;
pub mod contention;
pub mod error;
pub mod found;
pub mod json;
pub mod layout;
pub mod lock;
pub mod model;
pub mod sanitize;
pub mod signature;
pub mod template;
pub mod text;
pub mod update;
