//! Core of a cloud-drive client: the session, requests described by value,
//! the retry and captcha-recovery protocols, path resolution and the
//! bounded-concurrency scheduler of batch downloads.

pub mod captcha;
pub mod client;
pub mod error;
pub mod path;
pub mod retry;
pub mod transfer;

