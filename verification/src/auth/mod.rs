//! Credentials of the three identities: admin passwords and TOTP, API
//! tokens and session tokens keyed by the server secret, and service JWT
//! claims.

pub mod jwt;
pub mod password;
pub mod secret;
pub mod session;
pub mod token_hmac;
pub mod totp;

pub use jwt::{ServiceClaims, JwtError};
pub use password::{hash_password, verify_password, PasswordError};
pub use secret::ServerSecret;
pub use session::{generate_session_token, hash_session_token};
pub use token_hmac::{generate_api_token, hash_api_token};
pub use totp::{generate_totp_secret, totp_qrcode_datauri, verify_totp, TotpError};
