//! A verified model of a status-bar UI layer: the object-lifecycle rules for
//! status items, menus, menu items and click callbacks, a single-shot
//! cross-thread termination channel, and the cooperative event-loop state
//! machine that drives the designated UI thread.

pub mod driver;
pub mod menus;
pub mod refresh;
pub mod registry;
pub mod status;
pub mod terminate;
