//! A lifecycle-phased scheduler for the states of an application.
//!
//! A flow is assembled for one state value through a staged builder
//! (startup, then enter, then update, then exit tasks), turned into the
//! ordering, guard and barrier rules that the host scheduler needs, and
//! driven by a lifecycle whose activations, ticks and deactivations say
//! exactly which tasks run and in what order.
pub mod phase;
pub mod graph;
pub mod builder;
pub mod lifecycle;
pub mod laws;
