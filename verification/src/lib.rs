//! A client library for the Reddit API, written without I/O: it builds the
//! requests that the API expects and interprets the replies that it sends.

pub mod json;
pub mod objects;
pub mod post;
pub mod redditor;
pub mod session;
pub mod subreddit;
pub mod text;
pub mod util;
