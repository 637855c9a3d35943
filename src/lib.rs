pub mod context;
pub mod error;
pub mod laws;
pub mod processor;
pub mod table;
pub mod text;

pub use context::{
    expect_revert, mock_call, skip, ExecutionContext, FailureOutcome, HintMetadata,
    RevertExpectation,
};
pub use error::HintError;
pub use processor::{setup_hint_processor, HintHandler, HintProcessor};
pub use table::KeyedTable;
