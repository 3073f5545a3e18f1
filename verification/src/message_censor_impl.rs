pub use crate::messages::message_censor_impl::MessageCensorerImpl;
