//! Resolution of hierarchical keyboard-layout definitions: named JSON
//! documents that map human-readable key names to HID protocol codes.
//! A layout may declare a parent layout; resolving a layout merges it with
//! its ancestor chain, child fields taking precedence and note fields
//! accumulating.

pub mod decode;
pub mod error;
pub mod github;
pub mod layout;
pub mod merge;
pub mod resolve;

pub use decode::decode;
pub use error::LayoutError;
pub use github::GithubFile;
pub use github::TreeObject;
pub use github::TreeResponse;
pub use github::json_identifiers;
pub use layout::Header;
pub use layout::Layout;
pub use merge::merge;
pub use resolve::Layouts;
pub use resolve::Resolution;
