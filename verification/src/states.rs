pub mod marketplace;
pub mod service_nft;
