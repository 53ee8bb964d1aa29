//! User programs: the first process, and two programs it runs.
pub mod bigprog;
pub mod cycle;
pub mod denials;
pub mod laws;
pub mod line;
pub mod read_demo;
pub mod report;
pub mod request;
pub mod worker;
pub mod write_demo;
