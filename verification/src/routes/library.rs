pub mod ingredient;
pub mod meal;
