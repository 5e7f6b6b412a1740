//! A clipboard-history engine: a bounded, most-recent-first store of copied
//! items, the change detector that decides what is new, the labels shown for
//! each item, and the reactor that turns user events into store operations.

pub mod clipboard;
pub mod events;
pub mod menu;
pub mod storage;
