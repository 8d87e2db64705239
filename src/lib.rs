//! Client-side data layer: request state cells, response caches, and the
//! request policies (rate-limit retry, pagination, cached GET) of a web API
//! client, together with the command routing that ties them to a UI.

pub mod delegate;
pub mod endpoints;
pub mod image_cache;
pub mod paging;
pub mod promise;
pub mod retry;
pub mod track;
pub mod webapi;
