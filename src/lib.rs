//! A todo list service: the item store, the request router, the page
//! builder and the row logic of the relational store, all verified.

pub mod error;
pub mod item;
pub mod store;
pub mod counter;
pub mod db;
pub mod page;
pub mod routes;
