pub mod capture;
pub mod controller;
