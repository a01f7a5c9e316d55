//! Properties that hold of every scenario, database and amount.
use crate::calculation::{tax_after, total_tax};
use crate::decimal::{
    abs, aligned, lemma_pow10_positive, lemma_pow10_split, max_scale, pow10, product,
    rounded_to_cents, sum, value_le, DecimalValue,
};
use crate::errors::Failure;
use crate::provider::{state_profile, TaxDatabase};
use crate::decimal::truncated_u32;
use crate::types::{
    opt_view, Country, TaxCalculationType, TaxRateView, TaxScenario, TaxSystemType,
    TradeAgreementOverride,
};
use vstd::arithmetic::div_mod::lemma_fundamental_div_mod;
use vstd::prelude::*;

verus! {

/// Under an origin or destination treatment, the components of a
/// jurisdiction with a tax system are never an empty list, save in the
/// defined cases: a US state without a positive rate, an origin treatment
/// between different US states or Canadian provinces, and the US resale
/// exemption. A subdivision given for a GST country must be listed in its
/// profile.
pub proof fn lemma_origin_destination_components_nonempty(
    s: TaxScenario,
    db: TaxDatabase,
    amount: u32,
    t: TaxCalculationType,
    c: Country,
)
    requires
        s.calculation_type(db, amount) == Ok::<TaxCalculationType, Failure>(t),
        t == TaxCalculationType::Origin || t == TaxCalculationType::Destination,
        !s.us_resale_exempt(),
        db.country_profile(s.selected_region(t).country@) == Some(c),
        c.tax_type != TaxSystemType::NoTax,
        s.selected_region(t).country@ == "US"@ ==> (state_profile(
            c,
            opt_view(s.selected_region(t).region),
        ) matches Some(st) && st.standard_rate@.mantissa > 0),
        !(t == TaxCalculationType::Origin && (s.source_region.country@ == "US"@
            || s.source_region.country@ == "CA"@) && !s.same_state()),
        c.tax_type == TaxSystemType::Gst && s.selected_region(t).region is Some ==> state_profile(
            c,
            opt_view(s.selected_region(t).region),
        ) is Some,
    ensures
        s.rates(db, amount) matches Ok(rs) ==> rs.len() > 0,
{
}

proof fn lemma_sum_nonnegative(a: DecimalValue, b: DecimalValue)
    requires
        a.mantissa >= 0,
        b.mantissa >= 0,
    ensures
        sum(a, b).mantissa >= 0,
{
    let s = max_scale(a, b);
    lemma_pow10_positive((s - a.scale) as nat);
    lemma_pow10_positive((s - b.scale) as nat);
    assert(aligned(a, s) >= 0) by (nonlinear_arith)
        requires
            a.mantissa >= 0,
            pow10((s - a.scale) as nat) > 0,
            aligned(a, s) == a.mantissa * pow10((s - a.scale) as nat),
    ;
    assert(aligned(b, s) >= 0) by (nonlinear_arith)
        requires
            b.mantissa >= 0,
            pow10((s - b.scale) as nat) > 0,
            aligned(b, s) == b.mantissa * pow10((s - b.scale) as nat),
    ;
}

proof fn lemma_product_nonnegative(a: DecimalValue, b: DecimalValue)
    requires
        a.mantissa >= 0,
        b.mantissa >= 0,
    ensures
        product(a, b).mantissa >= 0,
{
    assert(a.mantissa * b.mantissa >= 0) by (nonlinear_arith)
        requires
            a.mantissa >= 0,
            b.mantissa >= 0,
    ;
}

/// Adding a non-negative number never lowers the value.
proof fn lemma_sum_not_below(a: DecimalValue, d: DecimalValue)
    requires
        d.mantissa >= 0,
    ensures
        value_le(a, sum(a, d)),
{
    let r = sum(a, d);
    lemma_pow10_positive(a.scale);
    lemma_pow10_positive(d.scale);
    if a.mantissa == 0 {
        assert(a.mantissa * pow10(r.scale) == 0);
        assert(r.mantissa * pow10(a.scale) >= 0) by (nonlinear_arith)
            requires
                r.mantissa >= 0,
                pow10(a.scale) > 0,
        ;
    } else if d.mantissa == 0 {
    } else {
        let s = max_scale(a, d);
        let k = (s - a.scale) as nat;
        lemma_pow10_split(a.scale, k);
        lemma_pow10_positive((s - d.scale) as nat);
        let ad = aligned(d, s);
        assert(ad >= 0) by (nonlinear_arith)
            requires
                d.mantissa >= 0,
                pow10((s - d.scale) as nat) > 0,
                ad == d.mantissa * pow10((s - d.scale) as nat),
        ;
        assert(a.mantissa * pow10(s) <= (aligned(a, s) + ad) * pow10(a.scale)) by (nonlinear_arith)
            requires
                pow10(s) == pow10(a.scale) * pow10(k),
                aligned(a, s) == a.mantissa * pow10(k),
                ad >= 0,
                pow10(a.scale) > 0,
        ;
    }
}

proof fn lemma_tax_after_prefix(amount: DecimalValue, rates: Seq<TaxRateView>, extra: TaxRateView, n: nat)
    requires
        n <= rates.len(),
    ensures
        tax_after(amount, rates.push(extra), n) == tax_after(amount, rates, n),
    decreases n,
{
    if n > 0 {
        lemma_tax_after_prefix(amount, rates, extra, (n - 1) as nat);
        assert(rates.push(extra)[n - 1] == rates[n - 1]);
    }
}

proof fn lemma_tax_after_nonnegative(amount: DecimalValue, rates: Seq<TaxRateView>, n: nat)
    requires
        n <= rates.len(),
        amount.mantissa >= 0,
        forall|i: int| 0 <= i < rates.len() ==> #[trigger] rates[i].rate.mantissa >= 0,
    ensures
        tax_after(amount, rates, n).mantissa >= 0,
    decreases n,
{
    if n > 0 {
        let prev = tax_after(amount, rates, (n - 1) as nat);
        lemma_tax_after_nonnegative(amount, rates, (n - 1) as nat);
        let r = rates[n - 1];
        lemma_sum_nonnegative(amount, prev);
        let base = if r.compound {
            sum(amount, prev)
        } else {
            amount
        };
        lemma_product_nonnegative(base, r.rate);
        lemma_sum_nonnegative(prev, product(base, r.rate));
    }
}

/// Appending a compounding component with a non-negative rate never lowers
/// the exact total, for a non-negative amount and non-negative rates.
pub proof fn lemma_compounding_component_never_lowers_total(
    amount: DecimalValue,
    rates: Seq<TaxRateView>,
    extra: TaxRateView,
)
    requires
        amount.mantissa >= 0,
        forall|i: int| 0 <= i < rates.len() ==> #[trigger] rates[i].rate.mantissa >= 0,
        extra.compound,
        extra.rate.mantissa >= 0,
    ensures
        value_le(total_tax(amount, rates), total_tax(amount, rates.push(extra))),
{
    let longer = rates.push(extra);
    let n = rates.len();
    lemma_tax_after_prefix(amount, rates, extra, n);
    lemma_tax_after_nonnegative(amount, rates, n);
    let prev = tax_after(amount, rates, n);
    assert(longer[n as int] == extra);
    assert(tax_after(amount, longer, n + 1) == sum(prev, product(sum(amount, prev), extra.rate)));
    lemma_sum_nonnegative(amount, prev);
    lemma_product_nonnegative(sum(amount, prev), extra.rate);
    lemma_sum_not_below(prev, product(sum(amount, prev), extra.rate));
}

/// Rounding to cents moves a value by at most half a cent.
pub proof fn lemma_rounding_within_half_cent(a: DecimalValue)
    ensures
        200 * abs(rounded_to_cents(a).mantissa * pow10(a.scale) - a.mantissa * pow10(
            rounded_to_cents(a).scale,
        )) <= pow10(a.scale) * pow10(rounded_to_cents(a).scale),
{
    let r = rounded_to_cents(a);
    lemma_pow10_positive(a.scale);
    if a.scale > 2 {
        let k = (a.scale - 2) as nat;
        let p = pow10(k);
        let h = 5 * pow10((k - 1) as nat);
        assert(p == 2 * h);
        lemma_pow10_positive(k);
        lemma_pow10_split(k, 2);
        assert(pow10(2) == 100) by {
            reveal_with_fuel(pow10, 3);
        }
        let m = abs(a.mantissa);
        let q = (m + h) / p;
        lemma_fundamental_div_mod(m + h, p);
        let rem = (m + h) % p;
        assert(-h <= q * p - m <= h) by (nonlinear_arith)
            requires
                m + h == p * q + rem,
                0 <= rem < p,
                p == 2 * h,
        ;
        assert(pow10(a.scale) == p * 100);
        let diff = r.mantissa * p - a.mantissa;
        assert(abs(diff) <= h) by {
            if a.mantissa < 0 {
                assert(r.mantissa == -q);
                assert(diff == -(q * p - m)) by (nonlinear_arith)
                    requires
                        r.mantissa == -q,
                        m == -a.mantissa,
                        diff == r.mantissa * p - a.mantissa,
                ;
            } else {
                assert(r.mantissa == q);
            }
        }
        assert(r.mantissa * pow10(a.scale) - a.mantissa * pow10(r.scale) == 100 * diff)
            by (nonlinear_arith)
            requires
                pow10(a.scale) == p * 100,
                pow10(r.scale) == 100,
                diff == r.mantissa * p - a.mantissa,
        ;
        assert(200 * abs(100 * diff) <= (p * 100) * 100) by (nonlinear_arith)
            requires
                abs(diff) <= h,
                p == 2 * h,
        ;
    } else {
        assert(r == a);
        assert(r.mantissa * pow10(a.scale) - a.mantissa * pow10(r.scale) == 0);
        assert(pow10(a.scale) * pow10(r.scale) >= 0) by (nonlinear_arith)
            requires
                pow10(a.scale) > 0,
                r == a,
        ;
    }
}

/// The rounded tax and the exact tax of a scenario succeed and fail
/// together, and where they succeed they differ by at most half a cent.
pub proof fn lemma_rounded_and_exact_tax_agree_to_cents(s: TaxScenario, db: TaxDatabase, amount: DecimalValue)
    ensures
        match (s.rounded_tax(db, amount), s.exact_tax(db, amount)) {
            (Ok(r), Ok(e)) => 200 * abs(r.mantissa * pow10(e.scale) - e.mantissa * pow10(r.scale))
                <= pow10(e.scale) * pow10(r.scale),
            (Err(f), Err(g)) => f == g,
            _ => false,
        },
{
    if let Ok(e) = s.exact_tax(db, amount) {
        lemma_rounding_within_half_cent(e);
    }
}

/// The two overrides name the same choice.
pub open spec fn same_override(a: Option<TradeAgreementOverride>, b: Option<TradeAgreementOverride>) -> bool {
    match (a, b) {
        (None, None) => true,
        (Some(TradeAgreementOverride::NoAgreement), Some(TradeAgreementOverride::NoAgreement)) => true,
        (
            Some(TradeAgreementOverride::UseAgreement(x)),
            Some(TradeAgreementOverride::UseAgreement(y)),
        ) => x@ == y@,
        _ => false,
    }
}

/// The two scenarios agree in every input the engine reads.
pub open spec fn same_inputs(a: TaxScenario, b: TaxScenario) -> bool {
    &&& a.source_region.country@ == b.source_region.country@
    &&& opt_view(a.source_region.region) == opt_view(b.source_region.region)
    &&& a.destination_region.country@ == b.destination_region.country@
    &&& opt_view(a.destination_region.region) == opt_view(b.destination_region.region)
    &&& a.transaction_type == b.transaction_type
    &&& same_override(a.trade_agreement_override, b.trade_agreement_override)
    &&& a.is_digital_product_or_service == b.is_digital_product_or_service
    &&& a.has_resale_certificate == b.has_resale_certificate
    &&& a.ignore_threshold == b.ignore_threshold
    &&& a.vat_rate == b.vat_rate
}

/// Classification and composition hold no hidden state: evaluating the same
/// inputs twice (or two scenarios that agree in every input) gives the same
/// treatment, the same components and the same tax.
pub proof fn lemma_same_inputs_same_outputs(a: TaxScenario, b: TaxScenario, db: TaxDatabase, amount: DecimalValue)
    requires
        same_inputs(a, b),
    ensures
        a.calculation_type(db, truncated_u32(amount)) == b.calculation_type(db, truncated_u32(amount)),
        a.rates(db, truncated_u32(amount)) == b.rates(db, truncated_u32(amount)),
        a.exact_tax(db, amount) == b.exact_tax(db, amount),
        a.rounded_tax(db, amount) == b.rounded_tax(db, amount),
{
    assert(a.resolved_agreement(db) == b.resolved_agreement(db));
    assert(a.destination_always_taxed() == b.destination_always_taxed());
}

} // verus!
