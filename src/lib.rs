mod engine;
pub mod error;
pub mod message;
pub mod resolve;
pub mod squash;
pub mod text;

pub use error::SquishError;
pub use resolve::get_current_branch_name;
pub use squash::squash_branch;
