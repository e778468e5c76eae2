pub mod text;
pub mod time;
pub mod formats;
pub mod id;
pub mod model;
pub mod datetime;
pub mod view;
pub mod browser;
pub mod config;
pub mod loading;
pub mod urls;
pub mod doctor;
pub mod page;
pub mod probe;
pub mod backend;
pub mod window;
pub mod cli;
pub mod executor;
pub mod prompt;
pub mod lookup;
