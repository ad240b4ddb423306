//! A time-bounded token sale: contributors deposit lamports into a capped
//! pool during a fixed window, and after the authority finalizes the sale
//! each contributor claims the tokens their deposits entitle them to.
pub mod error;
pub mod laws;
pub mod sale;
pub mod state;

pub use error::CustomError;
pub use sale::{
    UNIT_SCALE, claim_tokens, contribute, contribution_aborts, entitlement, finalize_pool,
    initialize_pool,
};
pub use state::{Pool, SalePhase, UserContribution};
