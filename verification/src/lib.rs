//! An in-memory bulletin board: a store of posts and the rendering of
//! its pages from templates.
//!
//! - [`text`]: strings as sequences of characters, numerals, substitution
//! - [`post`]: a post and the defaults of its fields
//! - [`clock`]: the time of day, to the minute
//! - [`store`]: the posts of a board, numbered in creation order
//! - [`render`]: the list page and the page of one post
//! - [`pages`]: what a visitor can ask for, and what is answered

pub mod clock;
pub mod pages;
pub mod post;
pub mod render;
pub mod store;
pub mod text;
