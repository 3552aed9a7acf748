//! A reactive editable-collection library for a terminal todo manager:
//! list, table and autocomplete editors that own a cursor over a mutable
//! collection of items, mutate it in response to key events, and broadcast
//! selection and text changes over an ordered event queue.

pub mod app;
pub mod event;
pub mod text;
pub mod todo;
pub mod ui_component;
pub mod util;
