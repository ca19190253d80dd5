//! Community meetup listings gathered from several event sites into one feed,
//! newest first, refreshed at most once per interval and cached in between.

pub mod cache;
pub mod event;
pub mod hasgeek;
pub mod luma;
pub mod markup;
pub mod meetup;
pub mod refresh;
pub mod source;
pub mod text;
pub mod timestamp;
