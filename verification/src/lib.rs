//! Request handling, payload decoding and migration bookkeeping for the DeepIdentifier
//! migration services, with their contracts proved by Verus.
//!
//! The dev setup: `api_types`, `codes` and `status` are the HTTP contract between the dev
//! client and its host; `compression`, `api_error`, `host_routes`, `environment`,
//! `enclave_client` and `migrations` are the host's logic; `enclave_types` and `enclave` are
//! its enclave; `client` is the CLI's. The migration service: `config`, `attestation`,
//! `migration_api` and `api_client`. `text` and `ids` hold the helpers they share.

pub mod api_client;
pub mod api_error;
pub mod api_types;
pub mod attestation;
pub mod client;
pub mod codes;
pub mod compression;
pub mod config;
pub mod enclave;
pub mod enclave_client;
pub mod enclave_types;
pub mod environment;
pub mod host_routes;
pub mod ids;
pub mod migration_api;
pub mod migrations;
pub mod status;
pub mod text;
