//! Generation of Slurm batch-job submission scripts for containerized jobs.
//!
//! The library resolves a container image selector, resolves the in-container
//! command, prepares per-task argument lists for job arrays, and renders the
//! shell script that is piped to `sbatch`. All rendering is pure: the script
//! text is a function of the resolved inputs alone.

pub mod command;
pub mod errors;
pub mod image;
pub mod numbers;
pub mod render;
pub mod tasks;
pub mod text;
