pub mod battle;
pub mod capital;
