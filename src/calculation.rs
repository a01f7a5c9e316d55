//! Treatment of a scenario, the tax components that follow from it, and the
//! tax they amount to.
use crate::codes::str_equal;
use crate::decimal::{
    dv, product, product_fits, rounded_to_cents, sum, sum_fits, truncated_u32, Decimal,
    DecimalValue,
};
use crate::errors::{database_failure, processing_failure, DatabaseError, Failure, ProcessingError};
use crate::provider::{component, opt_str, rate_views, TaxDatabase};
use crate::types::{
    opt_view, Region, TaxCalculationType, TaxRate, TaxRateView, TaxScenario, TaxSystemType,
    TaxType, TradeAgreement, TradeAgreementOverride, TradeAgreementType, TransactionType, VatRate,
};
use vstd::prelude::*;

verus! {

/// The Canadian provinces whose tax always applies at destination: the five
/// HST provinces and Quebec.
pub open spec fn destination_province(code: Seq<char>) -> bool {
    code == "CA-NS"@ || code == "CA-NB"@ || code == "CA-NL"@ || code == "CA-ON"@ || code
        == "CA-PE"@ || code == "CA-QC"@
}

fn is_destination_province(code: &str) -> (r: bool)
    ensures
        r == destination_province(code@),
{
    str_equal(code, "CA-NS") || str_equal(code, "CA-NB") || str_equal(code, "CA-NL") || str_equal(
        code,
        "CA-ON",
    ) || str_equal(code, "CA-PE") || str_equal(code, "CA-QC")
}

/// The tax accumulated over the first `n` components: each adds its rate
/// times the amount, or, where it compounds, times the amount plus the tax
/// accumulated before it.
pub open spec fn tax_after(amount: DecimalValue, rates: Seq<TaxRateView>, n: nat) -> DecimalValue
    decreases n,
{
    if n == 0 {
        dv(0, 0)
    } else {
        let prev = tax_after(amount, rates, (n - 1) as nat);
        let r = rates[n - 1];
        let base = if r.compound {
            sum(amount, prev)
        } else {
            amount
        };
        sum(prev, product(base, r.rate))
    }
}

/// Every step over the first `n` components is exactly representable.
pub open spec fn representable_through(amount: DecimalValue, rates: Seq<TaxRateView>, n: nat) -> bool
    decreases n,
{
    n == 0 || {
        let prev = tax_after(amount, rates, (n - 1) as nat);
        let r = rates[n - 1];
        let base = if r.compound {
            sum(amount, prev)
        } else {
            amount
        };
        representable_through(amount, rates, (n - 1) as nat) && (r.compound ==> sum_fits(
            amount,
            prev,
        )) && product_fits(base, r.rate) && sum_fits(prev, product(base, r.rate))
    }
}

pub open spec fn total_tax(amount: DecimalValue, rates: Seq<TaxRateView>) -> DecimalValue {
    tax_after(amount, rates, rates.len())
}

/// The exact total, or the failure for a computation that leaves the range.
pub open spec fn exact_outcome(amount: DecimalValue, rates: Seq<TaxRateView>) -> Result<
    DecimalValue,
    Failure,
> {
    if representable_through(amount, rates, rates.len()) {
        Ok(total_tax(amount, rates))
    } else {
        Err(Failure::InvalidAmount)
    }
}

pub proof fn lemma_representable_prefix(
    amount: DecimalValue,
    rates: Seq<TaxRateView>,
    m: nat,
    n: nat,
)
    requires
        m <= n,
        representable_through(amount, rates, n),
    ensures
        representable_through(amount, rates, m),
    decreases n,
{
    if m < n {
        lemma_representable_prefix(amount, rates, m, (n - 1) as nat);
    }
}

pub open spec fn decimal_result_is(r: Result<Decimal, ProcessingError>, expected: Result<DecimalValue, Failure>) -> bool {
    match r {
        Ok(t) => expected == Ok::<DecimalValue, Failure>(t@),
        Err(e) => expected == Err::<DecimalValue, Failure>(processing_failure(e)),
    }
}

pub open spec fn rates_result_is(r: Result<Vec<TaxRate>, ProcessingError>, expected: Result<Seq<TaxRateView>, Failure>) -> bool {
    match r {
        Ok(v) => expected == Ok::<Seq<TaxRateView>, Failure>(rate_views(v@)),
        Err(e) => expected == Err::<Seq<TaxRateView>, Failure>(processing_failure(e)),
    }
}

/// Folds the components over the amount, in order, exactly. Fails with
/// `InvalidAmount` where a step leaves the representable range.
pub fn aggregate_tax(amount: Decimal, rates: &Vec<TaxRate>) -> (r: Result<Decimal, ProcessingError>)
    ensures
        decimal_result_is(r, exact_outcome(amount@, rate_views(rates@))),
{
    let ghost views = rate_views(rates@);
    let mut total = Decimal::zero();
    let mut i: usize = 0;
    while i < rates.len()
        invariant
            i <= rates@.len(),
            views == rate_views(rates@),
            total@ == tax_after(amount@, views, i as nat),
            representable_through(amount@, views, i as nat),
        decreases rates@.len() - i,
    {
        let rate = &rates[i];
        assert(views[i as int] == rate@);
        let base = if rate.compound {
            if !amount.sum_fits(&total) {
                proof {
                    if representable_through(amount@, views, views.len()) {
                        lemma_representable_prefix(amount@, views, (i + 1) as nat, views.len());
                    }
                }
                return Err(ProcessingError::InvalidAmount);
            }
            amount.add(&total)
        } else {
            amount
        };
        if !base.product_fits(&rate.rate) {
            proof {
                if representable_through(amount@, views, views.len()) {
                    lemma_representable_prefix(amount@, views, (i + 1) as nat, views.len());
                }
            }
            return Err(ProcessingError::InvalidAmount);
        }
        let delta = base.mul(&rate.rate);
        if !total.sum_fits(&delta) {
            proof {
                if representable_through(amount@, views, views.len()) {
                    lemma_representable_prefix(amount@, views, (i + 1) as nat, views.len());
                }
            }
            return Err(ProcessingError::InvalidAmount);
        }
        total = total.add(&delta);
        i = i + 1;
    }
    Ok(total)
}

impl TaxScenario {
    pub open spec fn same_country(self) -> bool {
        self.source_region.country@ == self.destination_region.country@
    }

    pub open spec fn same_state(self) -> bool {
        opt_view(self.source_region.region) == opt_view(self.destination_region.region)
    }

    /// The agreement that governs the scenario: the one the override names,
    /// none where it says so; else the federal agreement of a shared country,
    /// or the first customs union holding both countries.
    pub open spec fn resolved_agreement(self, db: TaxDatabase) -> Result<Option<TradeAgreement>, Failure> {
        match self.trade_agreement_override {
            Some(TradeAgreementOverride::UseAgreement(id)) => match db.agreement(id@) {
                Some(a) => Ok(Some(a)),
                None => Err(Failure::AgreementNotFound(id@)),
            },
            Some(TradeAgreementOverride::NoAgreement) => Ok(None),
            None => if self.same_country() {
                Ok(db.federal_agreement(self.source_region.country@))
            } else {
                Ok(db.customs_union(self.source_region.country@, self.destination_region.country@))
            },
        }
    }

    /// A Canadian destination in an HST province or in Quebec.
    pub open spec fn destination_always_taxed(self) -> bool {
        self.destination_region.country@ == "CA"@ && match self.destination_region.region {
            Some(code) => destination_province(code@),
            None => false,
        }
    }

    /// The treatment under an agreement (or none), for an amount truncated to
    /// whole units.
    pub open spec fn treatment_under(self, agreement: Option<TradeAgreement>, amount: u32) -> TaxCalculationType {
        match agreement {
            None => if self.same_country() {
                TaxCalculationType::Origin
            } else {
                TaxCalculationType::ZeroRated
            },
            Some(a) => match a.agreement_type {
                TradeAgreementType::CustomsUnion => {
                    let config = match self.transaction_type {
                        TransactionType::B2B => a.tax_rules.internal_b2b,
                        TransactionType::B2C => a.tax_rules.internal_b2c,
                    };
                    match config {
                        Some(c) => c.product_treatment(
                            amount,
                            self.is_digital_product_or_service,
                            self.ignore_threshold,
                        ),
                        None => TaxCalculationType::Destination,
                    }
                },
                TradeAgreementType::FederalState => if self.destination_always_taxed() {
                    TaxCalculationType::Destination
                } else {
                    match self.transaction_type {
                        TransactionType::B2B => match a.tax_rules.internal_b2b {
                            Some(c) => if c.reseller(self.has_resale_certificate) {
                                TaxCalculationType::ZeroRated
                            } else {
                                c.general_treatment(amount, self.ignore_threshold)
                            },
                            None => TaxCalculationType::Destination,
                        },
                        TransactionType::B2C => match a.tax_rules.internal_b2c {
                            Some(c) => c.general_treatment(amount, self.ignore_threshold),
                            None => TaxCalculationType::Destination,
                        },
                    }
                },
            },
        }
    }

    pub open spec fn calculation_type(self, db: TaxDatabase, amount: u32) -> Result<TaxCalculationType, Failure> {
        match self.resolved_agreement(db) {
            Ok(a) => Ok(self.treatment_under(a, amount)),
            Err(f) => Err(f),
        }
    }

    /// The blanket exemption of US business sales against a resale certificate.
    pub open spec fn us_resale_exempt(self) -> bool {
        self.source_region.country@ == "US"@ && self.transaction_type == TransactionType::B2B
            && self.has_resale_certificate
    }

    /// The region whose rates a treatment selects.
    pub open spec fn selected_region(self, t: TaxCalculationType) -> Region {
        if t == TaxCalculationType::Origin {
            self.source_region
        } else {
            self.destination_region
        }
    }

    /// Regional lookup: between different US states or Canadian provinces
    /// only a destination treatment is looked up.
    pub open spec fn regional_components(self, db: TaxDatabase, t: TaxCalculationType) -> Result<Seq<TaxRateView>, Failure> {
        let region = self.selected_region(t);
        if t == TaxCalculationType::ZeroRated {
            Ok(seq![])
        } else if (region.country@ == "US"@ || region.country@ == "CA"@) && !self.same_state() && t
            != TaxCalculationType::Destination {
            Ok(seq![])
        } else {
            db.rates_lookup(region.country@, opt_view(region.region), self.vat_rate)
        }
    }

    /// The components for a treatment, given the destination's profile.
    pub open spec fn components_for(self, db: TaxDatabase, t: TaxCalculationType) -> Result<Seq<TaxRateView>, Failure> {
        match db.country_profile(self.destination_region.country@) {
            None => Err(Failure::CountryNotFound(self.destination_region.country@)),
            Some(c) => {
                let vat = c.tax_type == TaxSystemType::Vat;
                if t == TaxCalculationType::ReverseCharge && vat {
                    Ok(seq![component(dv(0, 0), TaxType::VAT(VatRate::ReverseCharge), false)])
                } else if t == TaxCalculationType::ZeroRated {
                    if vat {
                        Ok(seq![component(dv(0, 0), TaxType::VAT(VatRate::Zero), false)])
                    } else {
                        Ok(seq![])
                    }
                } else if t == TaxCalculationType::Exempt && vat {
                    Ok(seq![component(dv(0, 0), TaxType::VAT(VatRate::Exempt), false)])
                } else {
                    self.regional_components(db, t)
                }
            },
        }
    }

    /// The ordered tax components of the scenario.
    pub open spec fn rates(self, db: TaxDatabase, amount: u32) -> Result<Seq<TaxRateView>, Failure> {
        match self.calculation_type(db, amount) {
            Err(f) => Err(f),
            Ok(t) => if self.us_resale_exempt() {
                Ok(seq![])
            } else {
                self.components_for(db, t)
            },
        }
    }

    /// The exact tax of the scenario.
    pub open spec fn exact_tax(self, db: TaxDatabase, amount: DecimalValue) -> Result<DecimalValue, Failure> {
        match self.rates(db, truncated_u32(amount)) {
            Err(f) => Err(f),
            Ok(rs) => exact_outcome(amount, rs),
        }
    }

    /// The tax of the scenario, rounded to cents.
    pub open spec fn rounded_tax(self, db: TaxDatabase, amount: DecimalValue) -> Result<DecimalValue, Failure> {
        match self.exact_tax(db, amount) {
            Err(f) => Err(f),
            Ok(t) => Ok(rounded_to_cents(t)),
        }
    }

    /// A scenario with no override, physical goods, no resale certificate,
    /// thresholds applied and the standard VAT rate.
    pub fn new(source_region: Region, destination_region: Region, transaction_type: TransactionType) -> (r: Self)
        ensures
            r.source_region == source_region,
            r.destination_region == destination_region,
            r.transaction_type == transaction_type,
            r.trade_agreement_override is None,
            !r.is_digital_product_or_service,
            !r.has_resale_certificate,
            !r.ignore_threshold,
            r.vat_rate is None,
    {
        TaxScenario {
            source_region,
            destination_region,
            transaction_type,
            trade_agreement_override: None,
            is_digital_product_or_service: false,
            has_resale_certificate: false,
            ignore_threshold: false,
            vat_rate: None,
        }
    }

    /// The same scenario with the given agreement override.
    pub fn with_trade_agreement_override(self, override_type: TradeAgreementOverride) -> (r: Self)
        ensures
            r == (TaxScenario { trade_agreement_override: Some(override_type), ..self }),
    {
        let mut s = self;
        s.trade_agreement_override = Some(override_type);
        s
    }

    pub fn is_same_country(&self) -> (r: bool)
        ensures
            r == self.same_country(),
    {
        str_equal(self.source_region.country.as_str(), self.destination_region.country.as_str())
    }

    pub fn is_same_state(&self) -> (r: bool)
        ensures
            r == self.same_state(),
    {
        match (&self.source_region.region, &self.destination_region.region) {
            (Some(a), Some(b)) => str_equal(a.as_str(), b.as_str()),
            (None, None) => true,
            _ => false,
        }
    }

    fn determine_rule<'a>(&self, db: &'a TaxDatabase) -> (r: Result<Option<&'a TradeAgreement>, DatabaseError>)
        ensures
            match r {
                Ok(Some(a)) => self.resolved_agreement(*db) == Ok::<Option<TradeAgreement>, Failure>(Some(*a)),
                Ok(None) => self.resolved_agreement(*db) == Ok::<Option<TradeAgreement>, Failure>(None),
                Err(e) => self.resolved_agreement(*db) == Err::<Option<TradeAgreement>, Failure>(database_failure(e)),
            },
    {
        match &self.trade_agreement_override {
            Some(TradeAgreementOverride::UseAgreement(id)) => match db.get_rule(id.as_str()) {
                Ok(a) => Ok(Some(a)),
                Err(e) => Err(e),
            },
            Some(TradeAgreementOverride::NoAgreement) => Ok(None),
            None => {
                if self.is_same_country() {
                    Ok(db.get_federal_rule(self.source_region.country.as_str()))
                } else {
                    Ok(
                        db.get_international_rule(
                            self.source_region.country.as_str(),
                            self.destination_region.country.as_str(),
                        ),
                    )
                }
            },
        }
    }

    fn destination_is_always_taxed(&self) -> (r: bool)
        ensures
            r == self.destination_always_taxed(),
    {
        if !str_equal(self.destination_region.country.as_str(), "CA") {
            return false;
        }
        match &self.destination_region.region {
            Some(code) => is_destination_province(code.as_str()),
            None => false,
        }
    }

    fn get_calculation_type_from_agreement(&self, agreement: &TradeAgreement, amount: u32) -> (r: TaxCalculationType)
        ensures
            r == self.treatment_under(Some(*agreement), amount),
    {
        if agreement.is_international() {
            let config = match self.transaction_type {
                TransactionType::B2B => &agreement.tax_rules.internal_b2b,
                TransactionType::B2C => &agreement.tax_rules.internal_b2c,
            };
            match config {
                Some(c) => c.by_threshold_or_digital_product_threshold(
                    amount,
                    self.is_digital_product_or_service,
                    self.ignore_threshold,
                ),
                None => TaxCalculationType::Destination,
            }
        } else {
            if self.destination_is_always_taxed() {
                return TaxCalculationType::Destination;
            }
            match self.transaction_type {
                TransactionType::B2B => match &agreement.tax_rules.internal_b2b {
                    Some(c) => {
                        if c.is_reseller(self.has_resale_certificate) {
                            TaxCalculationType::ZeroRated
                        } else {
                            c.by_threshold(amount, self.ignore_threshold)
                        }
                    },
                    None => TaxCalculationType::Destination,
                },
                TransactionType::B2C => match &agreement.tax_rules.internal_b2c {
                    Some(c) => c.by_threshold(amount, self.ignore_threshold),
                    None => TaxCalculationType::Destination,
                },
            }
        }
    }

    /// The treatment of the scenario for an amount; thresholds compare the
    /// amount truncated to whole units.
    pub fn determine_calculation_type(&self, db: &TaxDatabase, amount: Decimal) -> (r: Result<TaxCalculationType, ProcessingError>)
        ensures
            match r {
                Ok(t) => self.calculation_type(*db, truncated_u32(amount@)) == Ok::<TaxCalculationType, Failure>(t),
                Err(e) => self.calculation_type(*db, truncated_u32(amount@)) == Err::<TaxCalculationType, Failure>(processing_failure(e)),
            },
    {
        let units = amount.truncate_to_u32();
        match self.determine_rule(db) {
            Err(e) => Err(ProcessingError::DatabaseError(e)),
            Ok(None) => {
                if self.is_same_country() {
                    Ok(TaxCalculationType::Origin)
                } else {
                    Ok(TaxCalculationType::ZeroRated)
                }
            },
            Ok(Some(agreement)) => Ok(self.get_calculation_type_from_agreement(agreement, units)),
        }
    }

    /// The ordered tax components of the scenario.
    pub fn get_rates(&self, amount: Decimal, db: &TaxDatabase) -> (r: Result<Vec<TaxRate>, ProcessingError>)
        ensures
            rates_result_is(r, self.rates(*db, truncated_u32(amount@))),
    {
        let calculation_type = match self.determine_calculation_type(db, amount) {
            Ok(t) => t,
            Err(e) => {
                return Err(e);
            },
        };
        if str_equal(self.source_region.country.as_str(), "US")
            && self.transaction_type == TransactionType::B2B && self.has_resale_certificate {
            let empty: Vec<TaxRate> = Vec::new();
            assert(rate_views(empty@) =~= seq![]);
            return Ok(empty);
        }
        let country = match db.get_country(self.destination_region.country.as_str()) {
            Ok(c) => c,
            Err(e) => {
                return Err(ProcessingError::DatabaseError(e));
            },
        };
        let vat = country.tax_type == TaxSystemType::Vat;
        if calculation_type == TaxCalculationType::ReverseCharge && vat {
            let r = vec![
                TaxRate {
                    rate: Decimal::zero(),
                    tax_type: TaxType::VAT(VatRate::ReverseCharge),
                    compound: false,
                },
            ];
            assert(rate_views(r@) =~= seq![
                component(dv(0, 0), TaxType::VAT(VatRate::ReverseCharge), false),
            ]);
            Ok(r)
        } else if calculation_type == TaxCalculationType::ZeroRated {
            if vat {
                let r = vec![
                    TaxRate {
                        rate: Decimal::zero(),
                        tax_type: TaxType::VAT(VatRate::Zero),
                        compound: false,
                    },
                ];
                assert(rate_views(r@) =~= seq![
                    component(dv(0, 0), TaxType::VAT(VatRate::Zero), false),
                ]);
                Ok(r)
            } else {
                let empty: Vec<TaxRate> = Vec::new();
                assert(rate_views(empty@) =~= seq![]);
                Ok(empty)
            }
        } else if calculation_type == TaxCalculationType::Exempt && vat {
            let r = vec![
                TaxRate {
                    rate: Decimal::zero(),
                    tax_type: TaxType::VAT(VatRate::Exempt),
                    compound: false,
                },
            ];
            assert(rate_views(r@) =~= seq![
                component(dv(0, 0), TaxType::VAT(VatRate::Exempt), false),
            ]);
            Ok(r)
        } else {
            self.get_regional_rates(calculation_type, db)
        }
    }

    fn get_regional_rates(&self, calculation_type: TaxCalculationType, db: &TaxDatabase) -> (r: Result<Vec<TaxRate>, ProcessingError>)
        ensures
            rates_result_is(r, self.regional_components(*db, calculation_type)),
    {
        if calculation_type == TaxCalculationType::ZeroRated {
            let empty: Vec<TaxRate> = Vec::new();
            assert(rate_views(empty@) =~= seq![]);
            return Ok(empty);
        }
        let region = if calculation_type == TaxCalculationType::Origin {
            &self.source_region
        } else {
            &self.destination_region
        };
        let federal = str_equal(region.country.as_str(), "US") || str_equal(region.country.as_str(), "CA");
        if federal && !self.is_same_state() && calculation_type != TaxCalculationType::Destination {
            let empty: Vec<TaxRate> = Vec::new();
            assert(rate_views(empty@) =~= seq![]);
            return Ok(empty);
        }
        let code = match &region.region {
            Some(s) => Some(s.as_str()),
            None => None,
        };
        assert(opt_str(code) == opt_view(region.region));
        match db.get_rate(region.country.as_str(), code, self.vat_rate.as_ref()) {
            Ok(rates) => Ok(rates),
            Err(e) => Err(ProcessingError::DatabaseError(e)),
        }
    }

    /// The tax of the scenario, exactly: the components folded over the
    /// amount, not rounded.
    pub fn calculate_tax_decimal(&self, amount: Decimal, db: &TaxDatabase) -> (r: Result<Decimal, ProcessingError>)
        ensures
            decimal_result_is(r, self.exact_tax(*db, amount@)),
    {
        let rates = match self.get_rates(amount, db) {
            Ok(rates) => rates,
            Err(e) => {
                return Err(e);
            },
        };
        aggregate_tax(amount, &rates)
    }

    /// The tax of the scenario, rounded to cents half away from zero.
    pub fn calculate_tax(&self, amount: Decimal, db: &TaxDatabase) -> (r: Result<Decimal, ProcessingError>)
        ensures
            decimal_result_is(r, self.rounded_tax(*db, amount@)),
    {
        match self.calculate_tax_decimal(amount, db) {
            Ok(total) => Ok(total.round_to_cents()),
            Err(e) => Err(e),
        }
    }
}

} // verus!
