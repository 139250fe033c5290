//! The settlement of batch swaps: one market's swaps of one block, traded
//! against the liquidity positions in both directions and recorded in the
//! market's output data.
//!
//! [`batch`] settles a market and [`route_and_fill`] trades in one
//! direction; [`fill_laws`] and [`batch_laws`] state what holds of both
//! whatever the market answers. Beside them stand the keys of the shielded
//! pool's state ([`state_key`]), the parameters of an application
//! ([`params`]) and the text that shows a transaction on a terminal
//! ([`transaction_view_ext`]).

pub mod asset;
pub mod batch;
pub mod batch_laws;
pub mod circuit_breaker;
pub mod fill_laws;
pub mod hex_text;
pub mod params;
pub mod position;
pub mod price;
pub mod route_and_fill;
pub mod state_key;
pub mod swap;
pub mod table;
pub mod text;
pub mod transaction;
pub mod transaction_view_ext;
