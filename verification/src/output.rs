//! Output windows: native surface handles, the table of open outputs and
//! the standby graphs shown on idle outputs.

pub mod manager;
pub mod native_handle;
pub mod standby;
