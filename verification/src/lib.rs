//! Core of a content-addressed media storage service.
//!
//! Files are uploaded under a named policy ("tag"), classified by their
//! bytes, normalized, and stored; they are later served back verbatim or
//! resized, and soft-deleted records are reaped in the background.
//!
//! This crate holds the verified logic: the tag policy engine, the
//! ingestion pipeline decisions, the serve/resize arithmetic, the record
//! model with its lookup and reaping rules, and the error taxonomy.
//! Network, database and filesystem plumbing live outside it and call in
//! with plain values.

pub mod config;
pub mod db;
pub mod media;
pub mod result;
pub mod serve;
pub mod strutil;
pub mod upload;
