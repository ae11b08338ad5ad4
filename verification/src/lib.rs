//! Client-side logic of the Pinepods web front end: request construction and
//! reply handling for the server API, the multi-step server login, the
//! authentication redirect rule, and the catalogue of localized messages.
pub mod text;
pub mod models;
pub mod http;
pub mod encoding;
pub mod endpoints;
pub mod login;
pub mod session;
pub mod i18n;
pub mod media;
