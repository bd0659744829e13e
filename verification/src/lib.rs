//! A menu-bar status utility, modelled at its core: a status indicator is
//! registered with the host desktop shell and, on interaction, either opens a
//! drop-down menu of actions or toggles a transient popover panel showing
//! status rows and footer controls.
//!
//! The verified core covers:
//! - the popover visibility state machine and its interaction with the
//!   toolkit's autonomous dismissal ([`toggle`]),
//! - the declarative layout builder that turns a content size and a row list
//!   into the popover's view tree ([`layout`]),
//! - the menu-action dispatcher ([`dispatch`]),
//! - the status-item configuration and the startup plan ([`host`]).
//!
//! The host windowing toolkit itself (view allocation, event delivery,
//! notification posting) is an external collaborator: a thin binding layer
//! outside this library executes the plans and requests computed here.

pub mod dispatch;
pub mod geometry;
pub mod host;
pub mod layout;
pub mod rows;
pub mod toggle;
