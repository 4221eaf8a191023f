//! Catalog, chapter and page extraction for manga sites behind one uniform
//! set of operations: the request each operation sends and the entities it
//! reads out of the response.

pub mod clock;
pub mod engine;
pub mod error;
pub mod input;
pub mod madara;
pub mod mangadex;
pub mod markup;
pub mod model;
pub mod nepnep;
pub mod nhentai;
pub mod pattern;
pub mod request;
pub mod text;
pub mod three_sixty_five_manga;
pub mod tritinia_scans;
pub mod weebcentral;
