//! A reactive state-management core: a finite-state value describing the
//! lifecycle of one asynchronous operation (`Async`), a closed error taxonomy
//! for such operations (`AsyncError`), a uniform conversion of computation
//! outcomes into that state (`ExecutionResult`), the decision rules of the
//! store's execute template, and a sequential mock store for tests.

use vstd::prelude::*;

mod async_error;
mod async_state;
mod execute;
mod execution_result;
mod mock;
mod network;
mod stream_ext;

pub use async_error::AsyncError;
pub use async_state::Async;
pub use async_state::lemma_reconciliation;
pub use async_state::lemma_value_of_constructors;
pub use async_state::option_cloned;
pub use execute::commit_plain;
pub use execute::commit_with_retain;
pub use execute::join_outcome;
pub use execute::loading_with_retain;
pub use execute::race_outcome;
pub use execute::timeout_outcome;
pub use execution_result::ExecutionResult;
pub use execution_result::lemma_option_round_trip;
pub use execution_result::lemma_result_round_trip;
pub use execution_result::lemma_value_round_trip;
pub use mock::MockStateStore;
pub use mock::StateOperation;
pub use network::MockHttpClient;
pub use network::MockHttpRequest;
pub use network::MockHttpResponse;
pub use network::contains_bytes;
pub use network::header_listed;
pub use network::header_written;
pub use stream_ext::StopIf;

verus! {

/// Marker for types that can serve as the application state of a store:
/// duplicable and safely transferable across the concurrency boundary.
pub trait State: Clone + Send + Sync + 'static {
}

} // verus!
