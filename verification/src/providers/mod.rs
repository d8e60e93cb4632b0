//! Search provider configurations and their verified request-building
//! and response-shaping logic. The network calls themselves live with
//! the embedding application; everything here is data in, data out.

pub mod arxiv;
pub mod brave;
pub mod duckduckgo;
pub mod exa;
pub mod google;
pub mod searxng;
pub mod serpapi;
pub mod tavily;

pub use arxiv::ArxivProvider;
pub use brave::BraveProvider;
pub use duckduckgo::DuckDuckGoProvider;
pub use exa::ExaProvider;
pub use google::GoogleProvider;
pub use searxng::SearxNGProvider;
pub use serpapi::SerpApiProvider;
pub use tavily::TavilyProvider;
