//! A fault-tolerant multiplexer between one consensus-layer client and a pool
//! of Ethereum execution-layer endpoints speaking the Engine JSON-RPC API.
//!
//! The verified core covers the node pool bookkeeping, the majority reducer
//! with its invalid-response safety rule, the per-method engine routing
//! decisions, the fork selector, the execution-payload model with its
//! RLP-based block-hash verifier, and the JWT secret handling.

pub mod fork;
pub mod jwt;
pub mod pool;
pub mod reducer;
pub mod rlp;
pub mod router;
pub mod serializer;
pub mod types;
pub mod verify_hash;
