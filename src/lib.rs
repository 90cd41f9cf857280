//! An append-only registry of project records, kept in one fixed-capacity
//! storage account: a running count and the entries in submission order.
pub mod external;
pub mod laws;
pub mod store;

pub use store::{
    add_project, initialize, AddProject, BaseAccount, Initialize, ItemStruct, ProjectError,
    ACCOUNT_SPACE, DATA_CAPACITY, DISCRIMINATOR_LEN, PUBKEY_LEN,
};
