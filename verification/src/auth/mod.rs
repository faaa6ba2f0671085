pub mod bearer;
pub mod jwt;
pub mod password;
