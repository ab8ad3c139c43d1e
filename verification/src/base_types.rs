//! Types that the endpoints share.

pub mod data;
