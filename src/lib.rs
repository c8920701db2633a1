pub mod ident;
pub mod laws;
pub mod links;
pub mod stats;
pub mod urls;

pub use links::{create_link, redirect, update_link, CounterLinkStatistics, Link, LinkTarget};
pub use stats::get_link_statistics;
