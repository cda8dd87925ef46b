pub mod login;
pub mod signup;
