//! A fixed-size worker pool's coordination logic: the job queue shared by the
//! workers, the pool's lifecycle, the accept loop's decisions, and the
//! request routing of the small connection handler that the pool runs.
pub mod accept;
pub mod http;
pub mod pool;
pub mod queue;
