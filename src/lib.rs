pub mod editor;
pub mod history;
pub mod selector;
pub mod symbols;
pub mod search;
