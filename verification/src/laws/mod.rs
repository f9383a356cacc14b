//! What holds of the program from its first call to its last, whatever the
//! desktop does.
pub mod events;
pub mod in_time;
pub mod listing;
pub mod messages;
pub mod order;
pub mod replies;
pub mod rounds;
pub mod run;
pub mod starting;
pub mod toggling;
pub mod values;
