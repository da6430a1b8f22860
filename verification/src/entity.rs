//! Entity definitions: the plain data types of the cluster's data model.

pub mod bucket;
pub mod device;
pub mod node;
pub mod object;
pub mod segment;
pub mod server;
