//! Session persistence: the decisions behind storing, publishing, copying and
//! finding chat sessions on disk.

pub mod actor;
pub mod actor_course;
pub mod actor_duties;
pub mod actor_laws;
pub mod checkpoint;
pub mod cleanup;
pub mod cleanup_laws;
pub mod copy_data;
pub mod copy_publish;
pub mod copying_laws;
pub mod deletion;
pub mod driver_laws;
pub mod entries;
pub mod failure_laws;
pub mod feedback;
pub mod file_laws;
pub mod finding_laws;
pub mod fork;
pub mod gate;
pub mod handle;
pub mod io_error;
pub mod jsonl;
pub mod lease;
pub mod load;
pub mod locking_laws;
pub mod message;
pub mod model_switch;
pub mod naming;
pub mod notification;
pub mod opening_laws;
pub mod publication_laws;
pub mod publish;
pub mod pull;
pub mod resolve;
pub mod search;
pub mod segments;
pub mod session_files;
pub mod stage;
pub mod store;
pub mod summary;
pub mod text;
pub mod timestamp;
pub mod view;
pub mod writer;
pub mod writing_laws;
