//! Request-orchestration and protocol-translation pipeline for a
//! navigation-request gateway.
//!
//! The crate decodes a route-planning wire payload (binary or JSON),
//! resolves point-of-interest references against an external search
//! collaborator, builds the normalized engine request, interprets the
//! foreign routing engine's reply, and manages a topology-transparent
//! cache keyed by route id.  The outside work — HTTP, the foreign
//! engine call, the cache wire protocol — is the embedding program's;
//! every decision between those calls is made, and proved, here.

pub mod cache;
pub mod client;
pub mod codec;
pub mod config;
pub mod dispatch;
pub mod engine;
pub mod errors;
pub mod fileserver;
pub mod geo;
mod jsonval;
pub mod normalized;
pub mod numparse;
pub mod poi;
pub mod service;
pub mod strutil;
pub mod translate;
mod yamlval;

pub use cache::{ConnectionInfo, RedisClientManager, RedisClientOperation};
pub use client::ClientRouteRequest;
pub use config::{ProxyConfig, RedisConfig, RedisConnect, ServerType, YamlError};
pub use dispatch::{ApiRoute, ApiServer, ApiServerHandler, FileServerHandler};
pub use engine::{EngineReply, RouteWrapper};
pub use errors::{CacheError, OrchestrationError, RouteError, SearchError, TranslationError};
pub use fileserver::{DirectoryEntry, DirectoryIndex};
pub use geo::GeoPoint;
pub use normalized::{NormalizedRouteRequest, PoiInfo, RouteEndpoint};
pub use poi::{PoiDetail, PoiDetailResponse, PoiDetailResponseBody, SearchPoiInfo};
pub use service::{RouteResult, Service};
