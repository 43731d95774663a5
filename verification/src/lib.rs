//! Discovery of network-attached smart-light devices over multicast DNS,
//! together with the tray/window visibility policy of the host shell.
//!
//! The crate holds the two decision cores of the utility:
//!
//! * [`discovery`] — a bounded-duration, event-driven browse/resolve session:
//!   it collects the resolve events that arrived within the collection window,
//!   normalizes each record into a [`discovery::DiscoveredService`], and
//!   terminates deterministically however many responses arrive.
//! * [`visibility`] — a stateless controller that turns a UI event and the
//!   window's live flags into a single visibility action.
//!
//! All network and windowing work stays with the host; the host hands this
//! crate plain values (timestamped events, window flags) and receives plain
//! values back (service lists, actions).

pub mod discovery;
pub mod visibility;
