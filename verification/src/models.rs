//! The data the authentication service works on: users, stored tokens,
//! requests with their field rules, and the errors of each operation.

pub mod email_verification_token;
pub mod password_reset_tokens;
pub mod refresh_token;
pub mod user;
