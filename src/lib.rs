pub mod clock;
pub mod commands;
pub mod component;
pub mod info;
pub mod modify;
pub mod paginator;
pub mod records;
pub mod session;
pub mod shop;
pub mod tasks;
pub mod text;
pub mod transactions;
pub mod user;
