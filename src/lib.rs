//! The decisions of a state-channel router client: which uplink packets wait for
//! a purchase, what each inbound protocol message calls for, and how an incoming
//! state channel is reconciled with the trusted one before it is stored.
//!
//! Outside work (the store, the transport, the gateway and the channel validator)
//! is left to a driver, which performs what each decision asks for and reports
//! the outcome back.

pub mod channel;
pub mod client;
pub mod queue;
pub mod reconcile;
