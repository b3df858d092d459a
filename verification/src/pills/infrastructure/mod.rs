pub mod controllers;
pub mod in_memory_repository;
pub mod persistence;
