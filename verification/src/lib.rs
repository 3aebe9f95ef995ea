//! Scheduled, concurrency-bounded, idempotent backfill of market data.
//!
//! The crate holds the rules of the engine: which reporting window a run
//! targets, when a run is skipped, how each work item is judged, what is
//! written to the store and when the sentinel is set.  Network, database and
//! timer work is left to the caller, which feeds the results back in.
//!
//! - [`scheduler`]: the timetable, the states of the scheduler and the
//!   tasks of one firing.
//! - [`fetch_gate`]: the cap on outbound requests in flight.
//! - [`sentinel`]: the key/TTL cache that marks a task as done.
//! - [`backfill`]: the backfill of quarterly statements as a machine of
//!   actions and events; [`run`] drives it against the in-memory store and
//!   provider, and [`guarantees`] proves what a run guarantees.
//! - [`financial_statement`], [`database`], [`source`], [`stock`]: the
//!   records, the in-memory store and the provider's answers.
//! - [`calendar`], [`amount`], [`text`], [`keyed`]: dates and quarters,
//!   decimal amounts, composed text and rows found by key.
//! - [`holiday_schedule`], [`estimate`], [`stock_word`], [`cmoney`],
//!   [`histock`], [`price`], [`http`]: what is asked of the providers and of
//!   the store, and how their answers are read.

pub mod amount;
pub mod backfill;
pub mod calendar;
pub mod cmoney;
pub mod database;
pub mod estimate;
pub mod fetch_gate;
pub mod financial_statement;
pub mod guarantees;
pub mod histock;
pub mod holiday_schedule;
pub mod http;
pub mod keyed;
pub mod price;
pub mod run;
pub mod scheduler;
pub mod sentinel;
pub mod source;
pub mod stock;
pub mod stock_word;
pub mod text;
