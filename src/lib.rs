//! Records of a skin server (user accounts and texture assets) and the
//! conversions that stand between them, their stored rows and their wire
//! form, with the rules for identities and errors.
pub mod error;
pub mod identity;
pub mod model;
pub mod rows;
pub mod wire;

pub use error::AppError;
pub use model::{ApiTexture, SkinType, Texture, User};
pub use rows::{TextureRow, UserRow};
