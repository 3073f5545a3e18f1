pub mod rpc_handler;
pub mod rpc_types;
