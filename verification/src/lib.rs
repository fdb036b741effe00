//! Verified arithmetic and decision logic of a Compound-style lending protocol:
//! fixed-point math over 256-bit integers, interest accrual, liquidity and
//! health-factor checks, and the state transitions of pools and the controller.

pub mod u256;
pub mod arith;
pub mod types;
pub mod exp;
pub mod wad_ray;
pub mod percent;
pub mod psp22;
pub mod controller;
pub mod pool;
pub mod interest_rate_model;
pub mod account;
pub mod price_oracle;
pub mod mapping;
pub mod leverager;
pub mod flashloan_gateway;
pub mod weth_gateway;
pub mod manager;
pub mod lens;
pub mod mocks;
pub mod weth;
pub mod incentives_controller;
pub mod laws;
