//! Resource planning and command mailboxes of the Mellanox ConnectX-3
//! driver.
pub mod caps;
pub mod layout;
pub mod profile;
pub mod work_queue;
pub mod queue_pair;
pub mod offsets;
pub mod icm;
pub mod completion;
pub mod posting;
pub mod cmd;
pub mod utils;
pub mod mailbox;
pub mod port;
pub mod qp_context;
