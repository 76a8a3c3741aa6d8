pub mod clients;
pub mod email;
pub mod oauth2;
pub mod rate_limit;
pub mod tokens;
pub mod users;
