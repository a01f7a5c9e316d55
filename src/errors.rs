//! Errors of region validation, reference-data lookup and tax processing.
use vstd::prelude::*;
use vstd::string::StringExecFns;

verus! {

/// A country or subdivision code that the ISO 3166 tables do not admit.
#[derive(Clone, Debug)]
pub enum InputValidationError {
    InvalidCountryCode(String),
    InvalidRegionCode(String),
    UnexpectedRegionCode(String),
}

/// A lookup in the reference data that found nothing.
#[derive(Clone, Debug)]
pub enum DatabaseError {
    TradeAgreementNotFound(String),
    CountryNotFound(String),
    RegionNotFound(String),
    VatRateNotFound(String),
}

/// Any failure of a tax computation.
#[derive(Clone, Debug)]
pub enum ProcessingError {
    InputValidationError(InputValidationError),
    DatabaseError(DatabaseError),
    InvalidAmount,
}

impl InputValidationError {
    pub open spec fn spec_message(self) -> Seq<char> {
        match self {
            InputValidationError::InvalidCountryCode(c) => "Invalid country code: "@ + c@,
            InputValidationError::InvalidRegionCode(c) => "Invalid region code: "@ + c@,
            InputValidationError::UnexpectedRegionCode(c) => "Unexpected region code: "@ + c@
                + " - Country has no regions."@,
        }
    }

    /// The error as text.
    pub fn message(&self) -> (r: String)
        ensures
            r@ == self.spec_message(),
    {
        match self {
            InputValidationError::InvalidCountryCode(c) => String::from_str(
                "Invalid country code: ",
            ).concat(c.as_str()),
            InputValidationError::InvalidRegionCode(c) => String::from_str(
                "Invalid region code: ",
            ).concat(c.as_str()),
            InputValidationError::UnexpectedRegionCode(c) => String::from_str(
                "Unexpected region code: ",
            ).concat(c.as_str()).concat(" - Country has no regions."),
        }
    }
}

impl DatabaseError {
    pub open spec fn spec_message(self) -> Seq<char> {
        match self {
            DatabaseError::TradeAgreementNotFound(c) => "Trade agreement not found: "@ + c@,
            DatabaseError::CountryNotFound(c) => "Country not found: "@ + c@,
            DatabaseError::RegionNotFound(c) => "Region not found: "@ + c@,
            DatabaseError::VatRateNotFound(c) => "VAT rate not found: "@ + c@,
        }
    }

    /// The error as text.
    pub fn message(&self) -> (r: String)
        ensures
            r@ == self.spec_message(),
    {
        match self {
            DatabaseError::TradeAgreementNotFound(c) => String::from_str(
                "Trade agreement not found: ",
            ).concat(c.as_str()),
            DatabaseError::CountryNotFound(c) => String::from_str("Country not found: ").concat(
                c.as_str(),
            ),
            DatabaseError::RegionNotFound(c) => String::from_str("Region not found: ").concat(
                c.as_str(),
            ),
            DatabaseError::VatRateNotFound(c) => String::from_str("VAT rate not found: ").concat(
                c.as_str(),
            ),
        }
    }
}

impl ProcessingError {
    pub open spec fn spec_message(self) -> Seq<char> {
        match self {
            ProcessingError::InputValidationError(e) => "Invalid input: "@ + e.spec_message(),
            ProcessingError::DatabaseError(e) => "Database error: "@ + e.spec_message(),
            ProcessingError::InvalidAmount => "Invalid amount"@,
        }
    }

    /// The error as text.
    pub fn message(&self) -> (r: String)
        ensures
            r@ == self.spec_message(),
    {
        match self {
            ProcessingError::InputValidationError(e) => String::from_str("Invalid input: ").concat(
                e.message().as_str(),
            ),
            ProcessingError::DatabaseError(e) => String::from_str("Database error: ").concat(
                e.message().as_str(),
            ),
            ProcessingError::InvalidAmount => String::from_str("Invalid amount"),
        }
    }
}

impl From<InputValidationError> for ProcessingError {
    fn from(err: InputValidationError) -> (r: ProcessingError)
        ensures
            r == ProcessingError::InputValidationError(err),
    {
        ProcessingError::InputValidationError(err)
    }
}

impl vstd::std_specs::convert::FromSpecImpl<InputValidationError> for ProcessingError {
    open spec fn obeys_from_spec() -> bool {
        true
    }

    open spec fn from_spec(v: InputValidationError) -> ProcessingError {
        ProcessingError::InputValidationError(v)
    }
}

impl From<DatabaseError> for ProcessingError {
    fn from(err: DatabaseError) -> (r: ProcessingError)
        ensures
            r == ProcessingError::DatabaseError(err),
    {
        ProcessingError::DatabaseError(err)
    }
}

impl vstd::std_specs::convert::FromSpecImpl<DatabaseError> for ProcessingError {
    open spec fn obeys_from_spec() -> bool {
        true
    }

    open spec fn from_spec(v: DatabaseError) -> ProcessingError {
        ProcessingError::DatabaseError(v)
    }
}

/// A failure as the contracts speak of it, with the code or name it carries.
pub enum Failure {
    InvalidInput,
    AgreementNotFound(Seq<char>),
    CountryNotFound(Seq<char>),
    RegionNotFound(Seq<char>),
    VatRateNotFound(Seq<char>),
    InvalidAmount,
}

pub open spec fn database_failure(e: DatabaseError) -> Failure {
    match e {
        DatabaseError::TradeAgreementNotFound(s) => Failure::AgreementNotFound(s@),
        DatabaseError::CountryNotFound(s) => Failure::CountryNotFound(s@),
        DatabaseError::RegionNotFound(s) => Failure::RegionNotFound(s@),
        DatabaseError::VatRateNotFound(s) => Failure::VatRateNotFound(s@),
    }
}

pub open spec fn processing_failure(e: ProcessingError) -> Failure {
    match e {
        ProcessingError::InputValidationError(_) => Failure::InvalidInput,
        ProcessingError::DatabaseError(d) => database_failure(d),
        ProcessingError::InvalidAmount => Failure::InvalidAmount,
    }
}

} // verus!
