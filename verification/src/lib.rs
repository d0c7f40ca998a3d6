use vstd::prelude::*;

pub mod config;
pub mod clones;
pub mod codec_base;
pub mod codec_item;
pub mod codec_kind;
pub mod codec_meta;
pub mod header;
pub mod imagefmt;
pub mod dates;
pub mod ingest;
pub mod json;
pub mod jsonio;
pub mod keys;
pub mod model;
pub mod num;
pub mod pages;
pub mod render;
pub mod resolve;
pub mod store;
pub mod text;
pub mod views;

verus! {

/// Errors that the archive core distinguishes.
#[derive(Debug, Clone, PartialEq, Eq)]
pub enum MinutemanError {
    LockError(String),
    DBError(String),
    TelegramError(String),
    ParseError(String),
    Utf8Error(String),
    Other(String),
}

} // verus!
