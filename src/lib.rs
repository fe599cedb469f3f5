//! Podcast server core: the error taxonomy, the stored rows and the rules
//! that read and change them, feed assembly and login decisions.
//!
//! Tables are handed to the library as vectors of rows; a function that
//! changes a table takes it by `&mut` and states the table it leaves.

/// Login by session cookie or basic-auth credentials.
pub mod auth;
/// Request bodies and the replies the user handlers decide on.
pub mod controllers;
/// The connection string and the session settings of new connections.
pub mod dbconfig;
/// The server's error type.
pub mod error;
/// Named API errors.
pub mod exceptions;
/// Users' favorite podcasts and podcast searches.
pub mod favorites;
/// Stored rows turned into API shapes.
pub mod mapping_service;
/// Notifications and their status.
pub mod notification;
/// Rows ordered by a text column.
pub mod ordering;
/// Podcasts and episodes.
pub mod podcast;
/// RSS feeds of downloaded episodes.
pub mod rss_feed;
/// Facts about sequences shared by the table operations.
pub mod seqs;
/// The settings row.
pub mod settings;
/// Decimal numbers, comma-separated lists, file suffixes, text search.
pub mod text;
