//! Decision logic of a Windows audio recorder.
pub mod activation;
pub mod capture;
pub mod config;
pub mod denoise;
pub mod devices;
pub mod dsp;
pub mod error;
pub mod format;
pub mod naming;
pub mod panels;
pub mod paths;
pub mod recorder;
pub mod run;
pub mod sessions;
pub mod single;
pub mod system;
pub mod text;
pub mod winpath;
