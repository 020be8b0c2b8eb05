pub mod catalogs;
pub mod chars;
pub mod fields;
pub mod focus;
pub mod laws;
pub mod parser;
pub mod paths;
pub mod sanitize;
pub mod schema;
pub mod validation;
