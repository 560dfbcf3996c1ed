//! Client-side core of the Banca d'Italia exchange-rate service: typed domain
//! records for currencies and daily rates, the envelope extraction that pulls
//! the result array out of a JSON response, and the normalizers that turn the
//! loosely-typed API shape (dates and decimals as strings) into the strictly
//! typed domain shape.
pub mod envelope;
pub mod error;
pub mod normalize;
pub mod parsing;
pub mod records;
