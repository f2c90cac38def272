//! Verified core of a terminal player for a Bandcamp collection.
use vstd::prelude::*;

pub mod album_page;
pub mod app;
pub mod artists;
pub mod auth;
pub mod cache;
pub mod collection;
pub mod config;
pub mod json;
pub mod keymap;
pub mod layout;
pub mod library;
pub mod models;
pub mod mp3;
pub mod nav;
pub mod number;
pub mod player;
pub mod queue;
pub mod screens;
pub mod text;
pub mod views;

verus! {

} // verus!
