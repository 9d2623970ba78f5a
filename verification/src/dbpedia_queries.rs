pub mod battle;
pub mod country;
pub mod get_query;
