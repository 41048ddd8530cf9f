pub mod app;
pub mod config;
pub mod driver;
pub mod fs;
pub mod labels;
pub mod navigator;
pub mod number;
pub mod rank;
pub mod scoring;
pub mod shell;
pub mod text;
