//! A school-platform backend core: exams, their question sets, answer
//! submission and grading. The business rules — role-based authorization,
//! temporal exam windows, answer-visibility redaction, upsert submission and
//! score aggregation — are verified against an in-memory model of the
//! relational store; the clock and the password hash come in through narrow
//! trusted boundaries.

pub mod auth;
pub mod class;
pub mod clock;
pub mod decimal;
pub mod errors;
pub mod exam;
pub mod question;
pub mod role;
pub mod store;
pub mod user;
