//! A framework that runs keyed transactions so that only the freshest
//! submission for each key completes, under a bounded retry budget.

pub mod env;
pub mod framework;
pub mod shutdown;
pub mod transactions;
pub mod workflow;
