pub mod echo;
pub mod message;
pub mod rpc;
pub mod transport;
