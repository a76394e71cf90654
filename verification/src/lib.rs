//! A host-metrics collector: the samples it takes, the rule by which it drops the ones
//! that say nothing, and the discipline by which it writes the rest to a store.

pub mod display;
pub mod json;
pub mod models;
pub mod poller;
pub mod postgres;
pub mod systeminfo;
pub mod text;
pub mod time;
pub mod ups;
