//! Scheduling votes, event recordings and transcripts for a study-group Discord bot.

pub mod audio;
pub mod calendar;
pub mod candidates;
pub mod clock;
pub mod commands;
pub mod config;
pub mod date_text;
pub mod day_filter;
pub mod embed;
pub mod errors;
pub mod options;
pub mod reactions;
pub mod recording;
pub mod schedule;
pub mod text;
pub mod transcripts;
pub mod vote;
pub mod zone;
