//! A personal media-library backend: request routing, a serialized database
//! executor and a transcoding pipe, with their behaviour stated as contracts.
pub mod api;
pub mod config;
pub mod ffmpeg;
pub mod model;
pub mod pattern;
pub mod scan;
pub mod sqlite;
pub mod stream;
pub mod text;
pub mod tmdb;
