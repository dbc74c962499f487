//! Price-oracle coordination for an offchain worker: a bounded observation
//! buffer with a saturating average, the per-block submission strategy
//! selector, price extraction from a fetched response, the submission steps
//! of each strategy, and the validator of unsigned price calls.

pub mod types;
pub mod aggregator;
pub mod selector;
pub mod validator;
pub mod calls;
pub mod fetcher;
pub mod submitter;
pub mod signature;

pub use types::{
    Call, DispatchError, Event, InvalidTransaction, Origin, Params, PricePayload, TestAuthId,
    ValidTransaction,
};
pub use aggregator::{Module, MAX_LEN};
pub use selector::TransactionType;
pub use validator::LONGEVITY;
pub use calls::UNSIGNED_SUBMITTER;
pub use fetcher::{
    fetch_price, parse_price, price_from_members, FetchError, HttpResponse, JsonNumber, Members,
    MAX_DIGIT_RUN, STATUS_OK,
};
pub use submitter::{keeps_submitting, Action, SendError, Stage, Submission};
pub use signature::{payload_encoding, verify_payload};
