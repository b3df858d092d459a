pub mod controllers;
pub mod persistence;
