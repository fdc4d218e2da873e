//! Core decisions of a deploy-as-a-service platform: command arguments, the
//! life of one deployment in the deployer, health-check scheduling, TLS
//! certificate resolution and request routing in the gateway.

pub mod ambulance;
pub mod args;
pub mod project;
pub mod proxy;
pub mod runner;
pub mod tls;
pub mod worker;
