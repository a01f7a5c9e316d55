//! Cross-border tax determination: which treatment applies to a transaction
//! between two regions, which tax components follow from it, and the exact
//! tax they amount to.
pub mod calculation;
pub mod codes;
pub mod decimal;
pub mod errors;
pub mod helper;
pub mod laws;
pub mod provider;
pub mod types;

pub use decimal::Decimal;
pub use provider::TaxDatabase;
pub use errors::{DatabaseError, InputValidationError, ProcessingError};
pub use types::{
    Region, TaxCalculationType, TaxRate, TaxScenario, TaxType, TradeAgreement,
    TradeAgreementOverride, TransactionType, VatRate,
};
