//! Verified core of a gateway in front of a cloud-storage HTTP API: the
//! access-token cache and the authenticated request pipeline.
//!
//! The crate decides; it performs no I/O. Its machines hand out actions
//! (read the cache, send this request, decode this body, write this token);
//! whoever runs them performs the action and hands back what happened. What
//! a machine does with every possible answer is stated as a function on
//! plain values and proved of the code.
//!
//! - [`token`], [`token_store`]: tokens, their validity, and the verdict on
//!   what the cache file holds.
//! - [`auth_api`]: the search for a token, from cache or from the platform.
//! - [`request`], [`file_api`], [`share_file_api`]: the requests.
//! - [`dispatch`]: the judgement of replies, and the machine of one call.
//! - [`session`]: the search for a token followed by a call.
//! - [`config`], [`basic_env`]: configuration and its discovery.
//! - [`envelope`], [`file_info`], [`share_file_config`], [`limit`],
//!   [`text`]: payloads and small tools.

pub mod auth_api;
pub mod basic_env;
pub mod config;
pub mod dispatch;
pub mod envelope;
pub mod file_api;
pub mod file_info;
pub mod limit;
pub mod request;
pub mod session;
pub mod share_file_api;
pub mod share_file_config;
pub mod text;
pub mod token;
pub mod token_store;
