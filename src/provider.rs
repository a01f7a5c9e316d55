//! The reference data: country tax profiles keyed by ISO 3166-1 alpha-2
//! code, trade agreements keyed by id, and the lookup of the tax components
//! of a jurisdiction.
use crate::codes::str_equal;
use crate::decimal::{dv, Decimal, DecimalValue};
use crate::errors::{database_failure, DatabaseError, Failure};
use crate::types::{
    vat_rate_name, Country, State, TaxRate, TaxRateView, TaxSystemType, TaxType, TradeAgreement,
    TradeAgreementType, VatRate,
};
use vstd::prelude::*;
use vstd::string::StringExecFns;

verus! {

/// The value of the first entry whose key is `key`.
pub open spec fn lookup<V>(entries: Seq<(String, V)>, key: Seq<char>) -> Option<V>
    decreases entries.len(),
{
    if entries.len() == 0 {
        None
    } else if entries[0].0@ == key {
        Some(entries[0].1)
    } else {
        lookup(entries.drop_first(), key)
    }
}

/// Whether `code` is among the agreement's members.
pub open spec fn has_member(a: TradeAgreement, code: Seq<char>) -> bool {
    exists|i: int| 0 <= i < a.members@.len() && #[trigger] a.members@[i]@ == code
}

/// The first customs union whose members include both countries.
pub open spec fn first_customs_union(
    entries: Seq<(String, TradeAgreement)>,
    source: Seq<char>,
    destination: Seq<char>,
) -> Option<TradeAgreement>
    decreases entries.len(),
{
    if entries.len() == 0 {
        None
    } else {
        let a = entries[0].1;
        if a.agreement_type == TradeAgreementType::CustomsUnion && has_member(a, source)
            && has_member(a, destination) {
            Some(a)
        } else {
            first_customs_union(entries.drop_first(), source, destination)
        }
    }
}

pub open spec fn component(rate: DecimalValue, tax_type: TaxType, compound: bool) -> TaxRateView {
    TaxRateView { rate, tax_type, compound }
}

pub open spec fn rate_views(rates: Seq<TaxRate>) -> Seq<TaxRateView> {
    rates.map_values(|t: TaxRate| t@)
}

pub open spec fn opt_str<'a>(s: Option<&'a str>) -> Option<Seq<char>> {
    match s {
        Some(x) => Some(x@),
        None => None,
    }
}

pub open spec fn opt_rate<'a>(v: Option<&'a VatRate>) -> Option<VatRate> {
    match v {
        Some(x) => Some(*x),
        None => None,
    }
}

pub open spec fn opt_value(d: Option<Decimal>) -> Option<DecimalValue> {
    match d {
        Some(x) => Some(x@),
        None => None,
    }
}

/// The profile of the subdivision `region` of `country`, if listed.
pub open spec fn state_profile(country: Country, region: Option<Seq<char>>) -> Option<State> {
    match (region, country.states) {
        (Some(code), Some(states)) => lookup(states@, code),
        _ => None,
    }
}

/// The country's federal GST alone.
pub open spec fn gst_only(country: Country) -> Seq<TaxRateView> {
    seq![component(country.standard_rate@, TaxType::GST, false)]
}

/// The components of a layered (Canadian-style) system for one subdivision:
/// HST replaces GST; QST and PST compound on top of GST.
pub open spec fn layered_components(country: Country, state: State) -> Seq<TaxRateView> {
    match state.tax_type {
        TaxSystemType::Hst => seq![component(state.standard_rate@, TaxType::HST, false)],
        TaxSystemType::Qst => seq![
            component(country.standard_rate@, TaxType::GST, false),
            component(state.standard_rate@, TaxType::QST, true),
        ],
        TaxSystemType::Pst => seq![
            component(country.standard_rate@, TaxType::GST, false),
            component(state.standard_rate@, TaxType::PST, true),
        ],
        _ => gst_only(country),
    }
}

/// The rate a VAT country sets for a variant; the zero, exempt and reverse
/// charge variants are zero.
pub open spec fn vat_rate_value(country: Country, v: VatRate) -> Option<DecimalValue> {
    match v {
        VatRate::Standard => Some(country.standard_rate@),
        VatRate::Reduced => opt_value(country.reduced_rate),
        VatRate::ReducedAlt => opt_value(country.reduced_rate_alt),
        VatRate::SuperReduced => opt_value(country.super_reduced_rate),
        _ => Some(dv(0, 0)),
    }
}

pub open spec fn chosen_vat_rate(v: Option<VatRate>) -> VatRate {
    match v {
        Some(x) => x,
        None => VatRate::Standard,
    }
}

pub open spec fn vat_components(country: Country, v: Option<VatRate>) -> Seq<TaxRateView> {
    match vat_rate_value(country, chosen_vat_rate(v)) {
        Some(rate) => seq![component(rate, TaxType::VAT(chosen_vat_rate(v)), false)],
        None => seq![],
    }
}

/// The components that a country's tax system gives, before the check that
/// a VAT country yields at least one.
pub open spec fn system_components(
    country: Country,
    region: Option<Seq<char>>,
    v: Option<VatRate>,
) -> Seq<TaxRateView> {
    match country.tax_type {
        TaxSystemType::Gst => match region {
            None => gst_only(country),
            Some(_) => match state_profile(country, region) {
                Some(state) => layered_components(country, state),
                None => seq![],
            },
        },
        TaxSystemType::Vat => vat_components(country, v),
        TaxSystemType::NoTax => seq![],
        _ => match state_profile(country, region) {
            Some(state) => layered_components(country, state),
            None => gst_only(country),
        },
    }
}

/// The state sales tax of a US state, where its rate is above zero.
pub open spec fn us_components(country: Country, region: Option<Seq<char>>) -> Seq<TaxRateView> {
    match state_profile(country, region) {
        Some(state) => if state.standard_rate@.mantissa > 0 {
            seq![component(state.standard_rate@, TaxType::StateSalesTax, false)]
        } else {
            seq![]
        },
        None => seq![],
    }
}

/// The reference data, shared read-only by all evaluations. Built through
/// `new` and the `add_` methods, each key is listed once (`well_formed`);
/// where a key is listed twice, the first entry counts.
#[derive(Clone, Debug)]
pub struct TaxDatabase {
    pub countries: Vec<(String, Country)>,
    pub trade_agreements: Vec<(String, TradeAgreement)>,
}

pub open spec fn rates_outcome(
    r: Result<Vec<TaxRate>, DatabaseError>,
    expected: Result<Seq<TaxRateView>, Failure>,
) -> bool {
    match r {
        Ok(v) => expected == Ok::<Seq<TaxRateView>, Failure>(rate_views(v@)),
        Err(e) => expected == Err::<Seq<TaxRateView>, Failure>(database_failure(e)),
    }
}

/// The position of the first entry whose key is `key`.
fn find_entry<V>(entries: &Vec<(String, V)>, key: &str) -> (r: Option<usize>)
    ensures
        match r {
            Some(i) => i < entries@.len() && entries@[i as int].0@ == key@ && lookup(entries@, key@)
                == Some(entries@[i as int].1) && forall|j: int|
                0 <= j < i ==> #[trigger] entries@[j].0@ != key@,
            None => lookup(entries@, key@) is None && forall|j: int|
                0 <= j < entries@.len() ==> #[trigger] entries@[j].0@ != key@,
        },
{
    let mut i: usize = 0;
    assert(entries@.subrange(0, entries@.len() as int) =~= entries@);
    while i < entries.len()
        invariant
            i <= entries@.len(),
            lookup(entries@, key@) == lookup(entries@.subrange(i as int, entries@.len() as int), key@),
            forall|j: int| 0 <= j < i ==> #[trigger] entries@[j].0@ != key@,
        decreases entries@.len() - i,
    {
        let ghost tail = entries@.subrange(i as int, entries@.len() as int);
        assert(tail.drop_first() =~= entries@.subrange(i + 1, entries@.len() as int));
        if str_equal(entries[i].0.as_str(), key) {
            return Some(i);
        }
        i = i + 1;
    }
    None
}

/// No key is listed twice.
pub open spec fn keys_unique<V>(entries: Seq<(String, V)>) -> bool {
    forall|i: int, j: int|
        0 <= i < j < entries.len() ==> #[trigger] entries[i].0@ != #[trigger] entries[j].0@
}

proof fn lemma_lookup_push<V>(entries: Seq<(String, V)>, k: String, v: V, key: Seq<char>)
    requires
        forall|j: int| 0 <= j < entries.len() ==> #[trigger] entries[j].0@ != k@,
    ensures
        lookup(entries.push((k, v)), key) == if key == k@ {
            Some(v)
        } else {
            lookup(entries, key)
        },
    decreases entries.len(),
{
    if entries.len() > 0 {
        let rest = entries.drop_first();
        assert(entries.push((k, v)).drop_first() =~= rest.push((k, v)));
        assert forall|j: int| 0 <= j < rest.len() implies #[trigger] rest[j].0@ != k@ by {
            assert(rest[j] == entries[j + 1]);
        }
        lemma_lookup_push(rest, k, v, key);
        assert(entries[0].0@ != k@);
        assert(entries.push((k, v))[0] == entries[0]);
    } else {
        assert(entries.push((k, v)).drop_first() =~= entries);
        assert(entries.push((k, v))[0] == (k, v));
    }
}

proof fn lemma_lookup_replace<V>(entries: Seq<(String, V)>, i: int, k: String, v: V, key: Seq<char>)
    requires
        0 <= i < entries.len(),
        entries[i].0@ == k@,
        forall|j: int| 0 <= j < i ==> #[trigger] entries[j].0@ != k@,
    ensures
        lookup(entries.update(i, (k, v)), key) == if key == k@ {
            Some(v)
        } else {
            lookup(entries, key)
        },
    decreases entries.len(),
{
    if i > 0 {
        let rest = entries.drop_first();
        assert(entries.update(i, (k, v)).drop_first() =~= rest.update(i - 1, (k, v)));
        assert forall|j: int| 0 <= j < i - 1 implies #[trigger] rest[j].0@ != k@ by {
            assert(rest[j] == entries[j + 1]);
        }
        lemma_lookup_replace(rest, i - 1, k, v, key);
        assert(entries[0].0@ != k@);
    } else {
        assert(entries.update(i, (k, v)).drop_first() =~= entries.drop_first());
    }
}

/// Puts `v` under `k`, replacing the entry already listed under it.
fn insert_entry<V>(entries: &mut Vec<(String, V)>, k: String, v: V)
    ensures
        forall|key: Seq<char>|
            #![trigger lookup(final(entries)@, key)]
            lookup(final(entries)@, key) == if key == k@ {
                Some(v)
            } else {
                lookup(old(entries)@, key)
            },
        keys_unique(old(entries)@) ==> keys_unique(final(entries)@),
{
    match find_entry(entries, k.as_str()) {
        Some(i) => {
            let ghost before = entries@;
            let ghost kv = k@;
            entries.set(i, (k, v));
            proof {
                assert(entries@ == before.update(i as int, (entries@[i as int].0, v)));
                assert forall|key: Seq<char>| #[trigger]
                    lookup(entries@, key) == (if key == kv {
                        Some(v)
                    } else {
                        lookup(before, key)
                    }) by {
                    lemma_lookup_replace(before, i as int, entries@[i as int].0, v, key);
                }
            }
        },
        None => {
            let ghost before = entries@;
            let ghost kk = k;
            entries.push((k, v));
            proof {
                assert forall|key: Seq<char>| #[trigger]
                    lookup(entries@, key) == (if key == kk@ {
                        Some(v)
                    } else {
                        lookup(before, key)
                    }) by {
                    lemma_lookup_push(before, kk, v, key);
                }
            }
        },
    }
}

/// The listed profile of the subdivision `region` of `country`.
fn find_state<'a>(country: &'a Country, region: Option<&str>) -> (r: Option<&'a State>)
    ensures
        match r {
            Some(s) => state_profile(*country, opt_str(region)) == Some(*s),
            None => state_profile(*country, opt_str(region)) is None,
        },
{
    match (region, &country.states) {
        (Some(code), Some(states)) => match find_entry(states, code) {
            Some(i) => Some(&states[i].1),
            None => None,
        },
        _ => None,
    }
}

fn gst_rate(country: &Country) -> (r: Vec<TaxRate>)
    ensures
        rate_views(r@) == gst_only(*country),
{
    let r = vec![TaxRate { rate: country.standard_rate, tax_type: TaxType::GST, compound: false }];
    assert(rate_views(r@) =~= gst_only(*country));
    r
}

fn layered_rates(country: &Country, state: &State) -> (r: Vec<TaxRate>)
    ensures
        rate_views(r@) == layered_components(*country, *state),
{
    let r = match state.tax_type {
        TaxSystemType::Hst => vec![
            TaxRate { rate: state.standard_rate, tax_type: TaxType::HST, compound: false },
        ],
        TaxSystemType::Qst => vec![
            TaxRate { rate: country.standard_rate, tax_type: TaxType::GST, compound: false },
            TaxRate { rate: state.standard_rate, tax_type: TaxType::QST, compound: true },
        ],
        TaxSystemType::Pst => vec![
            TaxRate { rate: country.standard_rate, tax_type: TaxType::GST, compound: false },
            TaxRate { rate: state.standard_rate, tax_type: TaxType::PST, compound: true },
        ],
        _ => vec![TaxRate { rate: country.standard_rate, tax_type: TaxType::GST, compound: false }],
    };
    assert(rate_views(r@) =~= layered_components(*country, *state));
    r
}

impl TaxDatabase {
    pub open spec fn country_profile(self, code: Seq<char>) -> Option<Country> {
        lookup(self.countries@, code)
    }

    pub open spec fn agreement(self, id: Seq<char>) -> Option<TradeAgreement> {
        lookup(self.trade_agreements@, id)
    }

    /// The agreement registered under a country's code, where it is federal.
    pub open spec fn federal_agreement(self, country: Seq<char>) -> Option<TradeAgreement> {
        match self.agreement(country) {
            Some(a) => if a.agreement_type == TradeAgreementType::FederalState {
                Some(a)
            } else {
                None
            },
            None => None,
        }
    }

    pub open spec fn customs_union(self, source: Seq<char>, destination: Seq<char>) -> Option<
        TradeAgreement,
    > {
        first_customs_union(self.trade_agreements@, source, destination)
    }

    /// The components of a jurisdiction: the state sales tax for the US,
    /// else those of the country's system; a VAT country must yield one.
    pub open spec fn rates_lookup(
        self,
        country: Seq<char>,
        region: Option<Seq<char>>,
        v: Option<VatRate>,
    ) -> Result<Seq<TaxRateView>, Failure> {
        match self.country_profile(country) {
            None => Err(Failure::CountryNotFound(country)),
            Some(c) => if country == "US"@ {
                Ok(us_components(c, region))
            } else {
                let comps = system_components(c, region, v);
                if comps.len() == 0 && c.tax_type == TaxSystemType::Vat {
                    Err(Failure::VatRateNotFound(vat_rate_name(chosen_vat_rate(v))))
                } else {
                    Ok(comps)
                }
            },
        }
    }

    /// Each country code and each agreement id is listed once.
    pub open spec fn well_formed(self) -> bool {
        keys_unique(self.countries@) && keys_unique(self.trade_agreements@)
    }

    /// A database with no countries and no agreements.
    pub fn new() -> (r: TaxDatabase)
        ensures
            r.well_formed(),
            forall|k: Seq<char>| #[trigger] r.country_profile(k) is None,
            forall|k: Seq<char>| #[trigger] r.agreement(k) is None,
    {
        TaxDatabase { countries: Vec::new(), trade_agreements: Vec::new() }
    }

    /// Puts a country profile under its code, replacing any listed before.
    pub fn add_country(&mut self, code: String, country: Country)
        ensures
            final(self).country_profile(code@) == Some(country),
            forall|k: Seq<char>|
                k != code@ ==> #[trigger] final(self).country_profile(k) == old(self).country_profile(k),
            final(self).trade_agreements == old(self).trade_agreements,
            old(self).well_formed() ==> final(self).well_formed(),
    {
        let ghost c = code@;
        insert_entry(&mut self.countries, code, country);
        assert(self.country_profile(c) == Some(country));
    }

    /// Puts a trade agreement under its id, replacing any listed before.
    pub fn add_trade_agreement(&mut self, id: String, agreement: TradeAgreement)
        ensures
            final(self).agreement(id@) == Some(agreement),
            forall|k: Seq<char>|
                k != id@ ==> #[trigger] final(self).agreement(k) == old(self).agreement(k),
            final(self).countries == old(self).countries,
            old(self).well_formed() ==> final(self).well_formed(),
    {
        let ghost c = id@;
        insert_entry(&mut self.trade_agreements, id, agreement);
        assert(self.agreement(c) == Some(agreement));
    }

    /// The agreement registered under a country's code, where it is federal.
    pub fn get_federal_rule(&self, country: &str) -> (r: Option<&TradeAgreement>)
        ensures
            match r {
                Some(a) => self.federal_agreement(country@) == Some(*a),
                None => self.federal_agreement(country@) is None,
            },
    {
        match find_entry(&self.trade_agreements, country) {
            Some(i) => {
                let a = &self.trade_agreements[i].1;
                if a.is_federal() {
                    Some(a)
                } else {
                    None
                }
            },
            None => None,
        }
    }

    /// The first customs union that has both countries as members.
    pub fn get_international_rule(&self, source: &str, dest: &str) -> (r: Option<&TradeAgreement>)
        ensures
            match r {
                Some(a) => self.customs_union(source@, dest@) == Some(*a),
                None => self.customs_union(source@, dest@) is None,
            },
    {
        let entries = &self.trade_agreements;
        let mut i: usize = 0;
        assert(entries@.subrange(0, entries@.len() as int) =~= entries@);
        while i < entries.len()
            invariant
                i <= entries@.len(),
                entries == &self.trade_agreements,
                self.customs_union(source@, dest@) == first_customs_union(
                    entries@.subrange(i as int, entries@.len() as int),
                    source@,
                    dest@,
                ),
            decreases entries@.len() - i,
        {
            let ghost tail = entries@.subrange(i as int, entries@.len() as int);
            assert(tail.drop_first() =~= entries@.subrange(i + 1, entries@.len() as int));
            let a = &entries[i].1;
            if a.is_international() && is_member(a, source) && is_member(a, dest) {
                return Some(a);
            }
            i = i + 1;
        }
        None
    }

    /// The profile of a country.
    pub fn get_country(&self, code: &str) -> (r: Result<&Country, DatabaseError>)
        ensures
            match r {
                Ok(c) => self.country_profile(code@) == Some(*c),
                Err(e) => self.country_profile(code@) is None && database_failure(e)
                    == Failure::CountryNotFound(code@),
            },
    {
        match find_entry(&self.countries, code) {
            Some(i) => Ok(&self.countries[i].1),
            None => Err(DatabaseError::CountryNotFound(String::from_str(code))),
        }
    }

    /// The agreement with the given id.
    pub fn get_rule(&self, rule_id: &str) -> (r: Result<&TradeAgreement, DatabaseError>)
        ensures
            match r {
                Ok(a) => self.agreement(rule_id@) == Some(*a),
                Err(e) => self.agreement(rule_id@) is None && database_failure(e)
                    == Failure::AgreementNotFound(rule_id@),
            },
    {
        match find_entry(&self.trade_agreements, rule_id) {
            Some(i) => Ok(&self.trade_agreements[i].1),
            None => Err(DatabaseError::TradeAgreementNotFound(String::from_str(rule_id))),
        }
    }

    /// The tax components of a jurisdiction.
    pub fn get_rate(&self, country: &str, region: Option<&str>, vat_rate: Option<&VatRate>) -> (r:
        Result<Vec<TaxRate>, DatabaseError>)
        ensures
            rates_outcome(r, self.rates_lookup(country@, opt_str(region), opt_rate(vat_rate))),
    {
        let country_data = match self.get_country(country) {
            Ok(c) => c,
            Err(e) => {
                return Err(e);
            },
        };
        if str_equal(country, "US") {
            let mut rates: Vec<TaxRate> = Vec::new();
            match find_state(country_data, region) {
                Some(state) => {
                    if state.standard_rate.mantissa() > 0 {
                        rates.push(
                            TaxRate {
                                rate: state.standard_rate,
                                tax_type: TaxType::StateSalesTax,
                                compound: false,
                            },
                        );
                    }
                },
                None => {},
            }
            assert(rate_views(rates@) =~= us_components(*country_data, opt_str(region)));
            return Ok(rates);
        }
        let rates = match country_data.tax_type {
            TaxSystemType::Gst => match region {
                None => gst_rate(country_data),
                Some(_) => match find_state(country_data, region) {
                    Some(state) => layered_rates(country_data, state),
                    None => {
                        let empty: Vec<TaxRate> = Vec::new();
                        assert(rate_views(empty@) =~= seq![]);
                        empty
                    },
                },
            },
            TaxSystemType::Vat => self.handle_vat_rates(country_data, vat_rate),
            TaxSystemType::NoTax => {
                let empty: Vec<TaxRate> = Vec::new();
                assert(rate_views(empty@) =~= seq![]);
                empty
            },
            _ => self.handle_gst_rates(country_data, region),
        };
        if rates.len() == 0 && country_data.tax_type == TaxSystemType::Vat {
            let chosen = match vat_rate {
                Some(v) => *v,
                None => VatRate::Standard,
            };
            Err(DatabaseError::VatRateNotFound(chosen.name()))
        } else {
            Ok(rates)
        }
    }

    /// The single VAT component for the chosen rate variant, if the country sets it.
    fn handle_vat_rates(&self, country: &Country, vat_rate: Option<&VatRate>) -> (r: Vec<TaxRate>)
        ensures
            rate_views(r@) == vat_components(*country, opt_rate(vat_rate)),
    {
        let rate_type = match vat_rate {
            Some(v) => *v,
            None => VatRate::Standard,
        };
        let rate = match rate_type {
            VatRate::Standard => Some(country.standard_rate),
            VatRate::Reduced => country.reduced_rate,
            VatRate::ReducedAlt => country.reduced_rate_alt,
            VatRate::SuperReduced => country.super_reduced_rate,
            _ => Some(Decimal::zero()),
        };
        let mut rates: Vec<TaxRate> = Vec::new();
        if let Some(rate_value) = rate {
            rates.push(TaxRate { rate: rate_value, tax_type: TaxType::VAT(rate_type), compound: false });
        }
        assert(rate_views(rates@) =~= vat_components(*country, opt_rate(vat_rate)));
        rates
    }

    /// The components of a layered system for the listed subdivision, or GST alone.
    fn handle_gst_rates(&self, country: &Country, region: Option<&str>) -> (r: Vec<TaxRate>)
        ensures
            rate_views(r@) == match state_profile(*country, opt_str(region)) {
                Some(state) => layered_components(*country, state),
                None => gst_only(*country),
            },
    {
        match find_state(country, region) {
            Some(state) => layered_rates(country, state),
            None => gst_rate(country),
        }
    }
}

/// Whether `code` is among the agreement's members.
fn is_member(a: &TradeAgreement, code: &str) -> (r: bool)
    ensures
        r == has_member(*a, code@),
{
    let mut i: usize = 0;
    while i < a.members.len()
        invariant
            i <= a.members@.len(),
            forall|j: int| 0 <= j < i ==> a.members@[j]@ != code@,
        decreases a.members@.len() - i,
    {
        if str_equal(a.members[i].as_str(), code) {
            return true;
        }
        i = i + 1;
    }
    false
}

} // verus!
