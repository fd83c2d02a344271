//! A read-only product-catalog query library: it interprets request
//! parameters into filters and identifier selections, builds parameterized
//! store queries, maps store rows to products, groups multi-identifier
//! results into per-country markets, and renders JSON responses.

pub mod arrays;
pub mod grouper;
pub mod ids;
pub mod jsonenc;
pub mod mapper;
pub mod params;
pub mod product;
pub mod query;
pub mod reply;
pub mod seqfacts;
pub mod timefmt;

pub use product::Market;
pub use product::Product;
