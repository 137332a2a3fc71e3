//! The ledger programs' own encoders, one module for each group of
//! instructions. Each encoder is called as it stands. Its contract says
//! when it succeeds, which program and accounts the instruction names, and
//! what its data are: byte for byte where the layout is a few fields, under
//! a name where it is not.
pub mod associated;
pub mod confidential_transfer;
pub mod confidential_transfer_fee;
pub mod cpi_guard;
pub mod default_account_state;
pub mod group_member_pointer;
pub mod group_pointer;
pub mod interest_bearing_mint;
pub mod memo_transfer;
pub mod metadata_pointer;
pub mod parts;
pub mod split_transfer;
pub mod token;
pub mod token_group;
pub mod token_metadata;
pub mod transfer_fee;
pub mod transfer_hook;
pub mod withheld;
