pub mod debugger;
pub mod text;
pub mod types;
pub mod ui;
