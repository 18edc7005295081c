pub mod address_space;
pub mod db;
pub mod methods;
pub mod mirror;
pub mod store;
pub mod tank_model;
