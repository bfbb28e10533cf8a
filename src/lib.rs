//! A website watchdog: probe classification, host identity resolution,
//! configuration selection and the per-tick decisions of the monitor loop.
pub mod check;
pub mod get_hostname;
pub mod handler;
pub mod monitor;
pub mod options;
