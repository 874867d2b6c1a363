pub mod getbyid;
pub mod greeting;
pub mod signup;
pub mod update;
