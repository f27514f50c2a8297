//! A small library for a "now playing" HTTP endpoint: it decides the
//! `Access-Control-Allow-Origin` response header from the request's `Origin`
//! header, frames the JSON body around the currently playing track, and
//! assembles the fixed-shape HTTP response.

pub mod handler;
pub mod track;
