pub mod config;
pub mod content;
pub mod dev;
pub mod errors;
pub mod feed;
pub mod html;
pub mod markdown;
pub mod ordering;
pub mod paths;
pub mod render;
pub mod routes;
pub mod site;
pub mod slug;
pub mod tags;
pub mod text;
pub mod validate;
