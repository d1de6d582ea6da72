pub mod email_address;
pub mod hex;
pub mod json;
pub mod text;
pub mod time;
pub mod verification_token;

pub use email_address::EmailAddress;
pub use time::Timestamp;
pub use verification_token::VerificationToken;
