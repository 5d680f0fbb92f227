pub mod long_url;
pub mod short_url;
