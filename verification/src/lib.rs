//! Verified core of a social payments platform on Stellar: the on-chain
//! contracts (fee distribution, merchant vault, batch payments, yield vault,
//! social graph, social payments, user registry) and the decision logic of
//! the backend services around them.
pub mod host;
pub mod fee_distribution;
pub mod merchant_vault;
pub mod payment_batch;
pub mod yield_vault;
pub mod social_graph;
pub mod social_payment;
pub mod user_registry;
pub mod text;
pub mod yield_calc;
pub mod yield_reports;
pub mod bridge;
pub mod yield_api;
pub mod api;
pub mod users_api;
pub mod ids;
pub mod social_api;
pub mod notifications;
pub mod schedules;
pub mod soroban;
pub mod payments;
pub mod sweep;
pub mod rate_limit;
