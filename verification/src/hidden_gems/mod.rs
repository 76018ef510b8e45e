//! Page analysis engines: bot-protection detection, stealth scripts,
//! semantic element targeting, article extraction, schema extraction and
//! the in-memory page memory.
pub mod crawl4ai;
pub mod firecrawl_extraction;
pub mod ranking;
pub mod stagehand;
pub mod stealth;
pub mod trafilatura;
pub mod vector_memory;

pub use crawl4ai::Crawl4AIDetector;
pub use firecrawl_extraction::FirecrawlExtractor;
pub use stagehand::StagehandEngine;
pub use stealth::PlaywrightStealth;
pub use vector_memory::{PersistentVectorMemory, VectorMemory};
pub use trafilatura::TrafilaturaExtractor;
