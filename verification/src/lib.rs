//! Marketplace that connects horse and carriage owners with riders who book
//! them for time slots: the booking life cycle, payment holds, reviews and
//! the in-memory stores behind them.

pub mod domain;
pub mod text;
pub mod error;
pub mod time;
pub mod ids;
pub mod payment;
pub mod repo;
pub mod service;
pub mod auth;
pub mod state;
pub mod access;
