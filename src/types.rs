//! The data model: tax systems, treatments, trade agreements with their rule
//! configurations, jurisdiction profiles, regions and scenarios.
use crate::codes::{lookup_iso_country, lookup_iso_subdivision, iso_country, iso_subdivision_country, str_equal};
use crate::decimal::{Decimal, DecimalValue};
use crate::errors::InputValidationError;
use std::collections::HashMap;
use vstd::prelude::*;
use vstd::string::StringExecFns;

verus! {

/// The kind of tax system a jurisdiction uses.
#[derive(Clone, Copy, Debug, PartialEq, Eq, Structural)]
pub enum TaxSystemType {
    Vat,
    Gst,
    Pst,
    Hst,
    Qst,
    NoTax,
}

/// Business to business, or business to consumer.
#[derive(Clone, Copy, Debug, PartialEq, Eq, Structural)]
pub enum TransactionType {
    B2B,
    B2C,
}

/// The treatment a transaction receives. The classifier hands out the first
/// five; `Undetermined` and `ThresholdBased` are reserved.
#[derive(Clone, Copy, Debug, PartialEq, Eq, Structural)]
pub enum TaxCalculationType {
    Origin,
    Destination,
    ReverseCharge,
    ZeroRated,
    Exempt,
    Undetermined,
    ThresholdBased,
}

/// The rate variants of a value added tax.
#[derive(Clone, Copy, Debug, PartialEq, Eq, Structural)]
pub enum VatRate {
    Standard,
    Reduced,
    ReducedAlt,
    SuperReduced,
    Zero,
    Exempt,
    ReverseCharge,
}

/// The name of a rate variant, as error messages give it.
pub open spec fn vat_rate_name(v: VatRate) -> Seq<char> {
    match v {
        VatRate::Standard => "Standard"@,
        VatRate::Reduced => "Reduced"@,
        VatRate::ReducedAlt => "ReducedAlt"@,
        VatRate::SuperReduced => "SuperReduced"@,
        VatRate::Zero => "Zero"@,
        VatRate::Exempt => "Exempt"@,
        VatRate::ReverseCharge => "ReverseCharge"@,
    }
}

impl VatRate {
    /// The variant's name.
    pub fn name(&self) -> (r: String)
        ensures
            r@ == vat_rate_name(*self),
    {
        match self {
            VatRate::Standard => String::from_str("Standard"),
            VatRate::Reduced => String::from_str("Reduced"),
            VatRate::ReducedAlt => String::from_str("ReducedAlt"),
            VatRate::SuperReduced => String::from_str("SuperReduced"),
            VatRate::Zero => String::from_str("Zero"),
            VatRate::Exempt => String::from_str("Exempt"),
            VatRate::ReverseCharge => String::from_str("ReverseCharge"),
        }
    }
}

/// The kind of a tax component.
#[derive(Clone, Copy, Debug, PartialEq, Eq, Structural)]
pub enum TaxType {
    VAT(VatRate),
    GST,
    HST,
    PST,
    QST,
    StateSalesTax,
}

/// A union of countries, or the states of one federation.
#[derive(Clone, Copy, Debug, PartialEq, Eq, Structural)]
pub enum TradeAgreementType {
    CustomsUnion,
    FederalState,
}

/// A scenario's choice of trade agreement, in place of the lookup.
#[derive(Clone, Debug)]
pub enum TradeAgreementOverride {
    UseAgreement(String),
    NoAgreement,
}

/// The kinds of supply an agreement covers.
#[derive(Clone, Copy, Debug)]
pub struct AppliesTo {
    pub physical_goods: bool,
    pub digital_goods: bool,
    pub services: bool,
}

/// A trade agreement and the rules it sets for trade among its members.
#[derive(Clone, Debug)]
pub struct TradeAgreement {
    pub name: String,
    pub agreement_type: TradeAgreementType,
    pub members: Vec<String>,
    pub default_applicable: bool,
    pub applies_to: AppliesTo,
    pub tax_rules: TaxRules,
}

impl TradeAgreement {
    /// Whether this agreement is among the states of one federation.
    pub fn is_federal(&self) -> (r: bool)
        ensures
            r == (self.agreement_type == TradeAgreementType::FederalState),
    {
        self.agreement_type == TradeAgreementType::FederalState
    }

    /// Whether this agreement is a customs union of countries.
    pub fn is_international(&self) -> (r: bool)
        ensures
            r == (self.agreement_type == TradeAgreementType::CustomsUnion),
    {
        self.agreement_type == TradeAgreementType::CustomsUnion
    }
}

/// A default treatment, with optional threshold rules for general and for
/// digital supplies, and the resale-certificate flag.
#[derive(Clone, Copy, Debug)]
pub struct TaxRuleConfig {
    pub calculation_type: TaxCalculationType,
    pub below_threshold: Option<TaxCalculationType>,
    pub above_threshold: Option<TaxCalculationType>,
    pub threshold: Option<u32>,
    pub below_threshold_digital_products: Option<TaxCalculationType>,
    pub above_threshold_digital_products: Option<TaxCalculationType>,
    pub threshold_digital_products: Option<u32>,
    pub requires_resale_certificate: Option<bool>,
}

/// A threshold rule: active only when the treatment below, the treatment
/// above and the threshold are all given, and the threshold is not ignored;
/// otherwise the default treatment applies.
pub open spec fn threshold_treatment(
    default: TaxCalculationType,
    below: Option<TaxCalculationType>,
    above: Option<TaxCalculationType>,
    threshold: Option<u32>,
    amount: u32,
    ignore_threshold: bool,
) -> TaxCalculationType {
    match (below, above, threshold) {
        (Some(b), Some(a), Some(t)) => if ignore_threshold {
            default
        } else if amount < t {
            b
        } else {
            a
        },
        _ => default,
    }
}

impl TaxRuleConfig {
    pub open spec fn general_treatment(self, amount: u32, ignore_threshold: bool) -> TaxCalculationType {
        threshold_treatment(
            self.calculation_type,
            self.below_threshold,
            self.above_threshold,
            self.threshold,
            amount,
            ignore_threshold,
        )
    }

    pub open spec fn digital_treatment(self, amount: u32, ignore_threshold: bool) -> TaxCalculationType {
        threshold_treatment(
            self.calculation_type,
            self.below_threshold_digital_products,
            self.above_threshold_digital_products,
            self.threshold_digital_products,
            amount,
            ignore_threshold,
        )
    }

    pub open spec fn product_treatment(
        self,
        amount: u32,
        is_digital: bool,
        ignore_threshold: bool,
    ) -> TaxCalculationType {
        if is_digital {
            self.digital_treatment(amount, ignore_threshold)
        } else {
            self.general_treatment(amount, ignore_threshold)
        }
    }

    pub open spec fn reseller(self, has_resale_certificate: bool) -> bool {
        self.requires_resale_certificate == Some(true) && has_resale_certificate
    }

    /// The treatment by the general threshold rule.
    pub fn by_threshold(&self, amount: u32, ignore_threshold: bool) -> (r: TaxCalculationType)
        ensures
            r == self.general_treatment(amount, ignore_threshold),
    {
        match (self.below_threshold, self.above_threshold, self.threshold) {
            (Some(below), Some(above), Some(threshold)) => {
                if ignore_threshold {
                    self.calculation_type
                } else if amount < threshold {
                    below
                } else {
                    above
                }
            },
            _ => self.calculation_type,
        }
    }

    /// The treatment by the threshold rule for digital products.
    pub fn by_digital_product_threshold(&self, amount: u32, ignore_threshold: bool) -> (r:
        TaxCalculationType)
        ensures
            r == self.digital_treatment(amount, ignore_threshold),
    {
        match (
            self.below_threshold_digital_products,
            self.above_threshold_digital_products,
            self.threshold_digital_products,
        ) {
            (Some(below), Some(above), Some(threshold)) => {
                if ignore_threshold {
                    self.calculation_type
                } else if amount < threshold {
                    below
                } else {
                    above
                }
            },
            _ => self.calculation_type,
        }
    }

    /// The treatment by the digital rule for a digital supply, by the general
    /// rule otherwise.
    pub fn by_threshold_or_digital_product_threshold(
        &self,
        amount: u32,
        is_digital_product_or_service: bool,
        ignore_threshold: bool,
    ) -> (r: TaxCalculationType)
        ensures
            r == self.product_treatment(amount, is_digital_product_or_service, ignore_threshold),
    {
        if is_digital_product_or_service {
            self.by_digital_product_threshold(amount, ignore_threshold)
        } else {
            self.by_threshold(amount, ignore_threshold)
        }
    }

    /// Whether the configuration asks for a resale certificate and the buyer has one.
    pub fn is_reseller(&self, has_resale_certificate: bool) -> (r: bool)
        ensures
            r == self.reseller(has_resale_certificate),
    {
        match self.requires_resale_certificate {
            Some(required) => required && has_resale_certificate,
            None => false,
        }
    }
}

/// The rule configurations of an agreement.
#[derive(Clone, Copy, Debug)]
pub struct TaxRules {
    pub internal_b2b: Option<TaxRuleConfig>,
    pub internal_b2c: Option<TaxRuleConfig>,
    pub external_export: TaxRuleConfig,
}

/// A default rule and the rules for named products.
#[derive(Clone, Debug)]
pub struct ProductRules {
    pub default: String,
    pub specific_products: HashMap<String, String>,
}

/// The tax profile of a state or province.
#[derive(Clone, Copy, Debug)]
pub struct State {
    pub standard_rate: Decimal,
    pub tax_type: TaxSystemType,
}

/// The tax profile of a country, with the profiles of its subdivisions keyed
/// by ISO 3166-2 code (where a code is listed twice, the first entry counts).
#[derive(Clone, Debug)]
pub struct Country {
    pub tax_type: TaxSystemType,
    pub currency: String,
    pub standard_rate: Decimal,
    pub reduced_rate: Option<Decimal>,
    pub reduced_rate_alt: Option<Decimal>,
    pub super_reduced_rate: Option<Decimal>,
    pub parking_rate: Option<Decimal>,
    pub vat_name: Option<String>,
    pub vat_abbr: Option<String>,
    pub states: Option<Vec<(String, State)>>,
}

/// A country, by ISO 3166-1 alpha-2 code, and optionally one of its
/// subdivisions, by ISO 3166-2 code (such as `CA-BC`).
#[derive(Clone, Debug)]
pub struct Region {
    pub country: String,
    pub region: Option<String>,
}

/// Whether `country` and `region` name an ISO 3166 country and, where given,
/// one of its subdivisions.
pub open spec fn region_validation(country: Seq<char>, region: Option<Seq<char>>) -> Option<
    RegionFault,
> {
    match iso_country(country) {
        None => Some(RegionFault::InvalidCountry),
        Some(has_subdivisions) => match region {
            None => None,
            Some(code) => if !has_subdivisions {
                Some(RegionFault::UnexpectedRegion)
            } else if iso_subdivision_country(code) == Some(country) {
                None
            } else {
                Some(RegionFault::InvalidRegion)
            },
        },
    }
}

/// Which check a region failed.
pub enum RegionFault {
    InvalidCountry,
    InvalidRegion,
    UnexpectedRegion,
}

pub open spec fn region_fault_of(e: InputValidationError, country: Seq<char>, region: Option<Seq<char>>) -> bool {
    match e {
        InputValidationError::InvalidCountryCode(c) => region_validation(country, region) == Some(
            RegionFault::InvalidCountry,
        ) && c@ == country,
        InputValidationError::InvalidRegionCode(c) => region_validation(country, region) == Some(
            RegionFault::InvalidRegion,
        ) && region == Some(c@),
        InputValidationError::UnexpectedRegionCode(c) => region_validation(country, region) == Some(
            RegionFault::UnexpectedRegion,
        ) && region == Some(c@),
    }
}

pub open spec fn opt_view(s: Option<String>) -> Option<Seq<char>> {
    match s {
        Some(x) => Some(x@),
        None => None,
    }
}

impl Region {
    /// A region, after checking both codes against ISO 3166.
    pub fn new(country: String, region: Option<String>) -> (r: Result<Region, InputValidationError>)
        ensures
            r matches Ok(g) ==> g.country == country && g.region == region,
            r is Ok <==> region_validation(country@, opt_view(region)) is None,
            r matches Err(e) ==> region_fault_of(e, country@, opt_view(region)),
    {
        match Self::validate(&country, &region) {
            Ok(()) => Ok(Region { country, region }),
            Err(e) => Err(e),
        }
    }

    fn validate(country: &String, region: &Option<String>) -> (r: Result<(), InputValidationError>)
        ensures
            r is Ok <==> region_validation(country@, opt_view(*region)) is None,
            r matches Err(e) ==> region_fault_of(e, country@, opt_view(*region)),
    {
        let has_subdivisions = match lookup_iso_country(country.as_str()) {
            Some(h) => h,
            None => {
                return Err(InputValidationError::InvalidCountryCode(country.clone()));
            },
        };
        match region {
            None => Ok(()),
            Some(code) => {
                if !has_subdivisions {
                    return Err(InputValidationError::UnexpectedRegionCode(code.clone()));
                }
                match lookup_iso_subdivision(code.as_str()) {
                    Some(owner) => {
                        if str_equal(owner.as_str(), country.as_str()) {
                            Ok(())
                        } else {
                            Err(InputValidationError::InvalidRegionCode(code.clone()))
                        }
                    },
                    None => Err(InputValidationError::InvalidRegionCode(code.clone())),
                }
            },
        }
    }
}

/// One transaction to be taxed.
#[derive(Clone, Debug)]
pub struct TaxScenario {
    pub source_region: Region,
    pub destination_region: Region,
    pub transaction_type: TransactionType,
    pub trade_agreement_override: Option<TradeAgreementOverride>,
    pub is_digital_product_or_service: bool,
    pub has_resale_certificate: bool,
    pub ignore_threshold: bool,
    pub vat_rate: Option<VatRate>,
}

/// One tax component: a rate, its kind, and whether it applies to the amount
/// plus the tax accumulated before it.
#[derive(Clone, Copy, Debug)]
pub struct TaxRate {
    pub rate: Decimal,
    pub tax_type: TaxType,
    pub compound: bool,
}

/// The mathematical content of a [`TaxRate`].
pub struct TaxRateView {
    pub rate: DecimalValue,
    pub tax_type: TaxType,
    pub compound: bool,
}

impl View for TaxRate {
    type V = TaxRateView;

    open spec fn view(&self) -> TaxRateView {
        TaxRateView { rate: self.rate@, tax_type: self.tax_type, compound: self.compound }
    }
}

} // verus!
