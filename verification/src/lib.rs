//! Installation planning for a game launcher: which libraries, assets and
//! runtime files a release needs, where each one is stored, and in which
//! order the caller has to fetch, create, extract and copy them.

pub mod archive;
pub mod install;
pub mod internal_types;
pub mod jvm;
pub mod layout;
pub mod natives;
pub mod paths;
pub mod pipeline;
pub mod runtime;
pub mod steps;
pub mod text;
pub mod types;
pub mod utils;
