//! The interaction logic of a dismissable modal dialog and of the page that
//! owns it: which clicks reach the dismiss handler, when the owner is told,
//! what the overlay's class lists are, and when the modal is mounted.
pub mod modal;
pub mod page;
pub mod laws;
