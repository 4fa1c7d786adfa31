//! A content-workflow engine: authors publish stories, attach tasks to them,
//! contributors submit work against tasks, and task creators approve it.
//!
//! The whole record lives in one [`StoryFactory`] value that every operation of
//! [`StoryFactoryContract`] takes by reference. Its three tables are ordered maps
//! of the Soroban host.
pub mod types;
pub mod keys;
pub mod store;
pub mod engine;
pub mod laws;

pub use types::{Error, Story, Submit, SubmitStatus, Task, TaskStatus};
pub use keys::Processing;
pub use store::StoryFactory;
pub use engine::StoryFactoryContract;
