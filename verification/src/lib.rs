pub mod db;
pub mod errors;
pub mod feature;
pub mod laws;
pub mod model;
pub mod module;
pub mod output;
pub mod project;
pub mod research;
pub mod resolve;
pub mod state;
pub mod text;
pub mod task;
