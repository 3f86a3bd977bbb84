pub mod text;
pub mod server;
pub mod rss_transcodizer;
pub mod streams;
pub mod configs;
pub mod transcoder;
pub mod html;
pub mod urls;
pub mod dates;
pub mod feed;
pub mod provider;
pub mod patterns;
pub mod source;
pub mod feed_bytes;
pub mod ids;
pub mod url_convert;
