//! A media-crawling core: a task executor with progress counters and the
//! decision logic of a resolve/expand/fetch pipeline. Network, file and
//! credential work stays with the caller; this crate holds the verified
//! state machine and the string and planning logic around it.

pub mod crawler;
pub mod executor;
pub mod fetch;
pub mod text;

pub use crawler::Crawler;
pub use crawler::CrawlerBuilder;
pub use crawler::Header;
pub use crawler::JobSpec;
pub use executor::ExecutorShutDown;
pub use executor::TaskMng;
pub use fetch::ResourceAction;
