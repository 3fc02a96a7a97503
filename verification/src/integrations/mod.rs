//! The services that documents are collected from.

pub mod paperless_ngx;
