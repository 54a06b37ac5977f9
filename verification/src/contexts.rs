pub mod buy_service;
pub mod initialize_marketplace;
pub mod list_service;
