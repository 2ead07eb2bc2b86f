//! A minimal counter service: one shared 64-bit counter, a query operation
//! that reads it, and an update operation that accepts every value except a
//! single forbidden sentinel.

pub mod counter;
