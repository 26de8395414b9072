//! Fetches a user's repository listing: cache first, then the hosting
//! service with one retry after a rate-limited answer, then a preview-image
//! address for each repository, and the listing handed back for caching.
//!
//! The fetch itself is [`fetcher::RepoFetcher`], a state machine that takes
//! the events of its environment (cache reads, responses, the clock) and
//! says what to do next; the environment performs the I/O.

pub mod text;
pub mod repo_url;
pub mod preview;
pub mod repository;
pub mod fetcher;
pub mod language;

pub use fetcher::{Action, Event, FetchError, Phase, RepoFetcher};
pub use language::{get_language_color, greeting};
pub use preview::{generate_hash, preview_image_url};
pub use repo_url::extract_repo_info;
pub use repository::{enrich_repositories, Repository};
