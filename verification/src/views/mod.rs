pub mod token_2022;
pub mod token_v1;

pub use token_2022::Token2022AccountView;
pub use token_v1::TokenAccountView;
