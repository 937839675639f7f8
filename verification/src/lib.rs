//! The verified core of a document-ingestion service.
//!
//! Uploaded documents, single PDFs and ZIP archives of PDFs, are turned into
//! structured records: the text is extracted, a structuring service makes a
//! JSON document of it, and both are stored, under a bound on how many jobs
//! run at once and with a status for every job.
//!
//! This crate holds the decisions: the status lifecycle ([`job`]), the
//! admission limiter ([`limiter`]), what a job does next ([`run`]), what
//! becomes of the documents of an archive ([`archive`], [`subtask`]), what a
//! structuring request holds and what is made of the reply
//! ([`structuring`], [`json`]), and what a run leaves in its row
//! ([`record`]). Fetching, storing, sleeping and waiting are left to the
//! caller, who carries out each action a job asks for and reports back.

pub mod analysis;
pub mod archive;
pub mod auth;
pub mod failure;
pub mod job;
pub mod json;
pub mod limiter;
pub mod projects;
pub mod record;
pub mod run;
pub mod service;
pub mod structuring;
pub mod subtask;
pub mod text;
pub mod trigger;
