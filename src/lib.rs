pub mod auth;
pub mod decimal;
pub mod book;
pub mod quoter;
pub mod rest;
pub mod websocket;
