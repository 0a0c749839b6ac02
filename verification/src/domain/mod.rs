//! Credential value types, user records, error kinds and the storage
//! interfaces.

pub mod data_stores;
pub mod email;
pub mod errors;
pub mod password;
pub mod user;


pub use errors::{AuthAPIError, CreateUserError};
pub use email::Email;
pub use password::Password;
pub use user::User;
pub use data_stores::{BannedTokenError, BannedTokenStore, UserStore, UserStoreError};
