//! Escrow-and-settlement ledger for a peer-to-peer car rental marketplace.
//!
//! Owners list cars, renters pay up front into contract-held custody, and
//! funds are later released to owners (minus a platform commission) and to
//! the platform administrator. The crate covers the rental escrow state
//! machine and the balance-accounting engine: car lifecycle, fund custody,
//! commission computation, and withdrawal authorization.
//!
//! The surrounding host (ledger runtime, asset transfer primitive, signature
//! verification, event delivery) is an external collaborator: the engine
//! records which notifications were emitted and leaves the actual movement of
//! assets to the caller, who performs it only after a successful call.

pub mod car;
pub mod commission;
pub mod contract;
pub mod errors;
pub mod inventory;
pub mod events;
pub mod rental;
