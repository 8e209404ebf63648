//! Seiten: reconciliation of anime episode metadata from an episode-list page
//! and the AniDB metadata service.

pub mod anidb_xml;
pub mod cascade;
pub mod corpus;
pub mod date;
pub mod dedup;
pub mod enrich;
pub mod enrich_flow;
pub mod episodes;
pub mod error;
pub mod fuzzy_match;
pub mod normalize;
pub mod page_url;
pub mod records;
pub mod scrape;
pub mod store_rules;
pub mod score;
pub mod text;
pub mod types;

pub use date::Date;
pub use normalize::normalize_title;
pub use types::{
    AniDBDump, AniDBEpisodeData, AniDBSeriesData, EpisodeData, EpisodeType, SeriesData,
    StoredEpisodeType,
};
