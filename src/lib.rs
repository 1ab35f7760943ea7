//! Cards: business entities kept as nodes of a property graph, the conditions
//! that select them, and the compilation of both into parameterized graph
//! statements.
pub mod text;
pub mod ids;
pub mod types;
pub mod card;
pub mod query;
pub mod params;
pub mod query_text;
pub mod compile;
pub mod store;
pub mod schema;
pub mod view;
