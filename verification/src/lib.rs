pub mod backfill;
pub mod balance;
pub mod book;
pub mod clock;
pub mod comms;
pub mod config;
pub mod dec;
pub mod exec;
pub mod grpc;
pub mod guards;
pub mod ids;
pub mod idset;
pub mod kalshi;
pub mod markets;
pub mod messages;
pub mod models;
pub mod orderbook;
pub mod orders;
pub mod platforms;
pub mod polymarket;
pub mod tags;
pub mod text;
pub mod vector_store;
pub mod ws;
