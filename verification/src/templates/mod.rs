pub mod mint;
pub mod transfer;

pub use mint::{BurnTemplate, MintToTemplate};
pub use transfer::{TransferCheckedTemplate, TransferTemplate};
