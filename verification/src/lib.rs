pub mod exporter;
pub mod extract;
pub mod frame;
pub mod page;
pub mod render;
pub mod server;
pub mod text;
pub mod ticket;
pub mod tracker;
