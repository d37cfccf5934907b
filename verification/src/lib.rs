pub mod auth;
pub mod captcha;
pub mod cleaner;
pub mod commands;
pub mod error;
pub mod html;
pub mod http;
pub mod json;
pub mod laws;
pub mod listing;
pub mod pairs;
pub mod site;
pub mod text;
