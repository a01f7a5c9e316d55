use world_tax::provider::TaxDatabase;
use world_tax::types::{
    AppliesTo, Country, State, TaxRuleConfig, TaxRules, TaxSystemType, TradeAgreementType,
};
use world_tax::{
    Decimal, Region, TaxScenario, TaxType, TradeAgreement, TradeAgreementOverride,
    TransactionType, VatRate,
};
use world_tax::TaxCalculationType;
use world_tax::TaxCalculationType::{Destination, Origin, ReverseCharge, ZeroRated};

fn dec(mantissa: i128, scale: u32) -> Decimal {
    Decimal::new(mantissa, scale)
}

fn text(s: &str) -> String {
    s.to_string()
}

fn vat_country(
    currency: &str,
    standard: Decimal,
    reduced: Option<Decimal>,
    reduced_alt: Option<Decimal>,
    super_reduced: Option<Decimal>,
) -> Country {
    Country {
        tax_type: TaxSystemType::Vat,
        currency: text(currency),
        standard_rate: standard,
        reduced_rate: reduced,
        reduced_rate_alt: reduced_alt,
        super_reduced_rate: super_reduced,
        parking_rate: None,
        vat_name: None,
        vat_abbr: None,
        states: None,
    }
}

fn state(rate: Decimal, tax_type: TaxSystemType) -> State {
    State { standard_rate: rate, tax_type }
}

fn rule(default: TaxCalculationType) -> TaxRuleConfig {
    TaxRuleConfig {
        calculation_type: default,
        below_threshold: None,
        above_threshold: None,
        threshold: None,
        below_threshold_digital_products: None,
        above_threshold_digital_products: None,
        threshold_digital_products: None,
        requires_resale_certificate: None,
    }
}

fn threshold_rule(
    default: TaxCalculationType,
    below: TaxCalculationType,
    above: TaxCalculationType,
    threshold: u32,
) -> TaxRuleConfig {
    let mut r = rule(default);
    r.below_threshold = Some(below);
    r.above_threshold = Some(above);
    r.threshold = Some(threshold);
    r
}

fn agreement(
    name: &str,
    kind: TradeAgreementType,
    members: &[&str],
    b2b: Option<TaxRuleConfig>,
    b2c: Option<TaxRuleConfig>,
) -> TradeAgreement {
    TradeAgreement {
        name: text(name),
        agreement_type: kind,
        members: members.iter().map(|m| text(m)).collect(),
        default_applicable: true,
        applies_to: AppliesTo { physical_goods: true, digital_goods: true, services: true },
        tax_rules: TaxRules {
            internal_b2b: b2b,
            internal_b2c: b2c,
            external_export: rule(TaxCalculationType::ZeroRated),
        },
    }
}

fn setup() -> TaxDatabase {
    let mut db = TaxDatabase::new();
    db.add_country(text("DE"), vat_country("EUR", dec(19, 2), Some(dec(7, 2)), None, None));
    db.add_country(
        text("FR"),
        vat_country("EUR", dec(20, 2), Some(dec(10, 2)), Some(dec(55, 3)), Some(dec(21, 3))),
    );
    db.add_country(
        text("IE"),
        vat_country("EUR", dec(23, 2), Some(dec(135, 3)), Some(dec(9, 2)), Some(dec(48, 3))),
    );
    db.add_country(text("GB"), vat_country("GBP", dec(20, 2), Some(dec(5, 2)), None, None));
    db.add_country(text("TH"), vat_country("THB", dec(7, 2), None, None, None));
    db.add_country(text("AE"), vat_country("AED", dec(5, 2), None, None, None));
    let mut qa = vat_country("QAR", dec(0, 0), None, None, None);
    qa.tax_type = TaxSystemType::NoTax;
    db.add_country(text("QA"), qa);
    let mut ca = vat_country("CAD", dec(5, 2), None, None, None);
    ca.tax_type = TaxSystemType::Gst;
    ca.states = Some(vec![
        (text("CA-BC"), state(dec(7, 2), TaxSystemType::Pst)),
        (text("CA-QC"), state(dec(9975, 5), TaxSystemType::Qst)),
        (text("CA-NS"), state(dec(10, 2), TaxSystemType::Hst)),
        (text("CA-ON"), state(dec(13, 2), TaxSystemType::Hst)),
        (text("CA-AB"), state(dec(0, 0), TaxSystemType::Gst)),
    ]);
    db.add_country(text("CA"), ca);
    let mut us = vat_country("USD", dec(0, 0), None, None, None);
    us.tax_type = TaxSystemType::NoTax;
    us.states = Some(vec![
        (text("US-CA"), state(dec(825, 4), TaxSystemType::NoTax)),
        (text("US-WA"), state(dec(65, 3), TaxSystemType::NoTax)),
        (text("US-TX"), state(dec(625, 4), TaxSystemType::NoTax)),
        (text("US-OR"), state(dec(0, 0), TaxSystemType::NoTax)),
        (text("US-AS"), state(dec(0, 0), TaxSystemType::NoTax)),
    ]);
    db.add_country(text("US"), us);

    let mut eu_b2c = threshold_rule(Destination, Origin, Destination, 10000);
    eu_b2c.below_threshold_digital_products = Some(Origin);
    eu_b2c.above_threshold_digital_products = Some(Destination);
    eu_b2c.threshold_digital_products = Some(10000);
    db.add_trade_agreement(
        text("EU"),
        agreement(
            "European Union",
            TradeAgreementType::CustomsUnion,
            &["DE", "FR", "IE"],
            Some(rule(ReverseCharge)),
            Some(eu_b2c),
        ),
    );
    db.add_trade_agreement(
        text("GCC"),
        agreement(
            "Gulf Cooperation Council",
            TradeAgreementType::CustomsUnion,
            &["AE", "QA"],
            Some(rule(ReverseCharge)),
            Some(rule(Origin)),
        ),
    );
    let mut resale = rule(Destination);
    resale.requires_resale_certificate = Some(true);
    db.add_trade_agreement(
        text("US"),
        agreement(
            "United States",
            TradeAgreementType::FederalState,
            &["US"],
            Some(resale),
            Some(threshold_rule(Destination, ZeroRated, Destination, 100000)),
        ),
    );
    db.add_trade_agreement(
        text("CA"),
        agreement(
            "Canada",
            TradeAgreementType::FederalState,
            &["CA"],
            Some(resale),
            Some(threshold_rule(Destination, ZeroRated, Destination, 30000)),
        ),
    );
    db
}

fn money(units: i128) -> Decimal {
    dec(units * 100, 2)
}

#[test]
fn test_german_vat_calculation() {
    let db = setup();
    let scenario = TaxScenario::new(
        Region::new("DE".to_string(), None).expect("Valid German region"),
        Region::new("DE".to_string(), None).expect("Valid German region"),
        TransactionType::B2C,
    );
    let tax = scenario
        .calculate_tax(money(100), &db)
        .expect("Tax calculation should succeed");
    assert_eq!(tax, money(19));

    let rates = scenario
        .get_rates(money(100), &db)
        .expect("Rates should be found");
    assert_eq!(rates.len(), 1);
    assert_eq!(rates[0].rate, dec(19, 2));
    assert_eq!(rates[0].tax_type, TaxType::VAT(VatRate::Standard));
    assert!(!rates[0].compound);
}

#[test]
fn test_canadian_gst_bc_pst_below_threshold() {
    let db = setup();
    let scenario = TaxScenario::new(
        Region::new("CA".to_string(), Some("CA-BC".to_string())).expect("Valid Canadian BC region"),
        Region::new("CA".to_string(), Some("CA-BC".to_string())).expect("Valid Canadian BC region"),
        TransactionType::B2C,
    );
    let tax = scenario
        .calculate_tax(money(100), &db)
        .expect("Tax calculation should succeed");
    assert_eq!(tax, money(0));
}

#[test]
fn test_canadian_gst_bc_pst_ignore_threshold() {
    let db = setup();
    let mut scenario = TaxScenario::new(
        Region::new("CA".to_string(), Some("CA-BC".to_string())).expect("Valid Canadian BC region"),
        Region::new("CA".to_string(), Some("CA-BC".to_string())).expect("Valid Canadian BC region"),
        TransactionType::B2C,
    );
    scenario.ignore_threshold = true;
    let tax = scenario
        .calculate_tax(money(100), &db)
        .expect("Tax calculation should succeed");
    assert_eq!(tax, dec(1235, 2));
}

#[test]
fn test_canadian_gst_bc_pst_above_threshold() {
    let db = setup();
    let scenario = TaxScenario::new(
        Region::new("CA".to_string(), Some("CA-BC".to_string())).expect("Valid Canadian BC region"),
        Region::new("CA".to_string(), Some("CA-BC".to_string())).expect("Valid Canadian BC region"),
        TransactionType::B2C,
    );
    let tax = scenario
        .calculate_tax(money(100000), &db)
        .expect("Tax calculation should succeed");
    assert_eq!(tax, money(12350));
}

#[test]
fn test_eu_cross_border_b2b() {
    let db = setup();
    let scenario = TaxScenario::new(
        Region::new("DE".to_string(), None).expect("Valid German region"),
        Region::new("FR".to_string(), None).expect("Valid French region"),
        TransactionType::B2B,
    );
    let tax = scenario
        .calculate_tax(money(100), &db)
        .expect("Tax calculation should succeed");
    assert_eq!(tax, money(0));
}

#[test]
fn test_eu_cross_border_b2c_digital() {
    let db = setup();
    let mut scenario = TaxScenario::new(
        Region::new("DE".to_string(), None).expect("Valid German region"),
        Region::new("FR".to_string(), None).expect("Valid French region"),
        TransactionType::B2B,
    );
    scenario.is_digital_product_or_service = true;
    let tax = scenario
        .calculate_tax(money(100), &db)
        .expect("Tax calculation should succeed");
    assert_eq!(tax, money(0));
}

#[test]
fn test_eu_cross_border_b2c() {
    let db = setup();
    let scenario = TaxScenario::new(
        Region::new("DE".to_string(), None).expect("Valid German region"),
        Region::new("FR".to_string(), None).expect("Valid French region"),
        TransactionType::B2C,
    );
    let tax = scenario
        .calculate_tax(money(100), &db)
        .expect("Tax calculation should succeed");
    assert_eq!(tax, money(19));
}

#[test]
fn test_french_reduced_vat() {
    let db = setup();
    let mut scenario = TaxScenario::new(
        Region::new("FR".to_string(), None).expect("Valid French region"),
        Region::new("FR".to_string(), None).expect("Valid French region"),
        TransactionType::B2C,
    );
    scenario.vat_rate = Some(VatRate::ReducedAlt);
    let tax = scenario
        .calculate_tax(money(100), &db)
        .expect("Tax calculation should succeed");
    assert_eq!(tax, dec(55, 1));
}

#[test]
fn test_german_domestic_b2b() {
    let db = setup();
    let scenario = TaxScenario::new(
        Region::new("DE".to_string(), None).expect("Valid German region"),
        Region::new("DE".to_string(), None).expect("Valid German region"),
        TransactionType::B2B,
    );
    let tax = scenario
        .calculate_tax(money(100), &db)
        .expect("Tax calculation should succeed");
    assert_eq!(tax, money(19));
}

#[test]
fn test_germany_thailand_b2b() {
    let db = setup();
    let scenario = TaxScenario::new(
        Region::new("DE".to_string(), None).expect("Valid German region"),
        Region::new("TH".to_string(), None).expect("Valid Thai region"),
        TransactionType::B2B,
    );
    let tax = scenario
        .calculate_tax(money(100), &db)
        .expect("Tax calculation should succeed");
    assert_eq!(tax, money(0));
}

#[test]
fn test_germany_thailand_b2c() {
    let db = setup();
    let scenario = TaxScenario::new(
        Region::new("DE".to_string(), None).expect("Valid German region"),
        Region::new("TH".to_string(), None).expect("Valid Thai region"),
        TransactionType::B2C,
    );
    let tax = scenario
        .calculate_tax(money(100), &db)
        .expect("Tax calculation should succeed");
    assert_eq!(tax, money(0));
}

#[test]
fn test_us_interstate_b2c_below_threshold() {
    let db = setup();
    let scenario = TaxScenario::new(
        Region::new("US".to_string(), Some("US-CA".to_string())).expect("Valid US-CA region"),
        Region::new("US".to_string(), Some("US-WA".to_string())).expect("Valid US-WA region"),
        TransactionType::B2C,
    );
    let tax = scenario
        .calculate_tax(money(100), &db)
        .expect("Tax calculation should succeed");
    assert_eq!(tax, money(0));
}

#[test]
fn test_us_interstate_b2c_ignore_threshold() {
    let db = setup();
    let mut scenario = TaxScenario::new(
        Region::new("US".to_string(), Some("US-CA".to_string())).expect("Valid US-CA region"),
        Region::new("US".to_string(), Some("US-WA".to_string())).expect("Valid US-WA region"),
        TransactionType::B2C,
    );
    scenario.ignore_threshold = true;
    let tax = scenario
        .calculate_tax(money(100), &db)
        .expect("Tax calculation should succeed");
    assert_eq!(tax, dec(65, 1));
}

#[test]
fn test_us_interstate_b2c_above_threshold() {
    let db = setup();
    let scenario = TaxScenario::new(
        Region::new("US".to_string(), Some("US-CA".to_string())).expect("Valid US-CA region"),
        Region::new("US".to_string(), Some("US-WA".to_string())).expect("Valid US-WA region"),
        TransactionType::B2C,
    );
    let tax = scenario
        .calculate_tax(money(100000), &db)
        .expect("Tax calculation should succeed");
    assert_eq!(tax, money(6500));
}

#[test]
fn test_us_interstate_b2b() {
    let db = setup();
    let mut scenario = TaxScenario::new(
        Region::new("US".to_string(), Some("US-TX".to_string())).expect("Valid US-TX region"),
        Region::new("US".to_string(), Some("US-WA".to_string())).expect("Valid US-WA region"),
        TransactionType::B2B,
    );
    scenario.has_resale_certificate = true;
    let tax = scenario
        .calculate_tax(money(100), &db)
        .expect("Tax calculation should succeed");
    assert_eq!(tax, money(0));
}

#[test]
fn test_us_interstate_b2b_reseller() {
    let db = setup();
    let mut scenario = TaxScenario::new(
        Region::new("US".to_string(), Some("US-WA".to_string())).expect("Valid US-WA region"),
        Region::new("US".to_string(), Some("US-TX".to_string())).expect("Valid US-TX region"),
        TransactionType::B2B,
    );
    scenario.has_resale_certificate = true;
    let tax = scenario
        .calculate_tax(money(100), &db)
        .expect("Tax calculation should succeed");
    assert_eq!(tax, money(0));
}

#[test]
fn test_gcc_cross_border_b2b() {
    let db = setup();
    let scenario = TaxScenario::new(
        Region::new("AE".to_string(), None).expect("Valid UAE region"),
        Region::new("QA".to_string(), None).expect("Valid Qatar region"),
        TransactionType::B2B,
    );
    let tax = scenario
        .calculate_tax(money(100), &db)
        .expect("Tax calculation should succeed");
    assert_eq!(tax, money(0));
}

#[test]
fn test_gcc_cross_border_b2c() {
    let db = setup();
    let scenario = TaxScenario::new(
        Region::new("AE".to_string(), None).expect("Valid UAE region"),
        Region::new("QA".to_string(), None).expect("Valid Qatar region"),
        TransactionType::B2C,
    );
    let tax = scenario
        .calculate_tax(money(100), &db)
        .expect("Tax calculation should succeed");
    assert_eq!(tax, money(5));
}

#[test]
fn test_gcc_cross_border_b2c_manual() {
    let db = setup();
    let scenario = TaxScenario {
        source_region: Region::new("AE".to_string(), None).expect("Valid UAE region"),
        destination_region: Region::new("QA".to_string(), None).expect("Valid Qatar region"),
        transaction_type: TransactionType::B2C,
        trade_agreement_override: None,
        is_digital_product_or_service: false,
        has_resale_certificate: false,
        ignore_threshold: false,
        vat_rate: None,
    };
    let tax = scenario
        .calculate_tax(money(100), &db)
        .expect("Tax calculation should succeed");
    assert_eq!(tax, money(5));
}

#[test]
fn test_gcc_cross_border_b2c_manual_no_agreement() {
    let db = setup();
    let scenario = TaxScenario {
        source_region: Region::new("AE".to_string(), None).expect("Valid UAE region"),
        destination_region: Region::new("QA".to_string(), None).expect("Valid Qatar region"),
        transaction_type: TransactionType::B2C,
        trade_agreement_override: Some(TradeAgreementOverride::NoAgreement),
        is_digital_product_or_service: false,
        has_resale_certificate: false,
        ignore_threshold: false,
        vat_rate: None,
    };
    let tax = scenario
        .calculate_tax(money(100), &db)
        .expect("Tax calculation should succeed");
    assert_eq!(tax, money(0));
}

#[test]
fn test_canadian_quebec_gst_qst() {
    let db = setup();
    let scenario = TaxScenario::new(
        Region::new("CA".to_string(), Some("CA-QC".to_string())).expect("Valid Canadian QC region"),
        Region::new("CA".to_string(), Some("CA-QC".to_string())).expect("Valid Canadian QC region"),
        TransactionType::B2C,
    );
    let rates = scenario
        .get_rates(money(100), &db)
        .expect("Rates should be found");
    assert_eq!(rates.len(), 2);
    let gst_rate = rates
        .iter()
        .find(|r| matches!(r.tax_type, TaxType::GST))
        .expect("Should have GST");
    assert_eq!(gst_rate.rate, dec(5, 2));
    let qst_rate = rates
        .iter()
        .find(|r| matches!(r.tax_type, TaxType::QST))
        .expect("Should have QST");
    assert_eq!(qst_rate.rate, dec(9975, 5));
    assert!(qst_rate.compound);
}

#[test]
fn test_canadian_nova_scotia_hst() {
    let db = setup();
    let scenario = TaxScenario::new(
        Region::new("CA".to_string(), Some("CA-NS".to_string())).expect("Valid Canadian NS region"),
        Region::new("CA".to_string(), Some("CA-NS".to_string())).expect("Valid Canadian NS region"),
        TransactionType::B2C,
    );
    let rates = scenario
        .get_rates(money(100), &db)
        .expect("Rates should be found");
    assert_eq!(rates.len(), 1);
    assert_eq!(rates[0].tax_type, TaxType::HST);
    assert_eq!(rates[0].rate, dec(10, 2));
    assert!(!rates[0].compound);
}

#[test]
fn test_eu_zero_rate() {
    let db = setup();
    let mut scenario = TaxScenario::new(
        Region::new("IE".to_string(), None).expect("Valid Irish region"),
        Region::new("IE".to_string(), None).expect("Valid Irish region"),
        TransactionType::B2C,
    );
    scenario.vat_rate = Some(VatRate::Zero);
    let tax = scenario
        .calculate_tax(money(100), &db)
        .expect("Tax calculation should succeed");
    assert_eq!(tax, money(0));
}

#[test]
fn test_multiple_tax_rates() {
    let db = setup();
    let scenario = TaxScenario::new(
        Region::new("CA".to_string(), Some("CA-BC".to_string())).expect("Valid Canadian BC region"),
        Region::new("CA".to_string(), Some("CA-BC".to_string())).expect("Valid Canadian BC region"),
        TransactionType::B2C,
    );
    let rates = scenario
        .get_rates(money(100000), &db)
        .expect("Rates should be found");
    assert_eq!(rates.len(), 2);
    assert!(rates.iter().any(|r| matches!(r.tax_type, TaxType::GST)));
    assert!(rates.iter().any(|r| matches!(r.tax_type, TaxType::PST)));
}

#[test]
fn test_reverse_charge_vat() {
    let db = setup();
    let mut scenario = TaxScenario::new(
        Region::new("DE".to_string(), None).expect("Valid German region"),
        Region::new("FR".to_string(), None).expect("Valid French region"),
        TransactionType::B2B,
    );
    scenario.vat_rate = Some(VatRate::ReverseCharge);
    let rates = scenario
        .get_rates(money(100), &db)
        .expect("Rates should be found");
    assert_eq!(rates.len(), 1);
    assert_eq!(rates[0].rate, money(0));
    assert!(matches!(rates[0].tax_type, TaxType::VAT(VatRate::ReverseCharge)));
}

#[test]
fn test_us_state_no_sales_tax() {
    let db = setup();
    let scenario = TaxScenario::new(
        Region::new("US".to_string(), Some("US-OR".to_string())).expect("Valid US-OR region"),
        Region::new("US".to_string(), Some("US-OR".to_string())).expect("Valid US-OR region"),
        TransactionType::B2C,
    );
    let tax = scenario
        .calculate_tax(money(100), &db)
        .expect("Tax calculation should succeed");
    assert_eq!(tax, money(0));
}

#[test]
fn test_us_states_get_rates() {
    let db = setup();
    let mut scenario = TaxScenario::new(
        Region::new("US".to_string(), Some("US-AS".to_string())).expect("Valid US-AK region"),
        Region::new("US".to_string(), Some("US-CA".to_string())).expect("Valid US-CA region"),
        TransactionType::B2C,
    );
    scenario.ignore_threshold = true;
    let rates = scenario.get_rates(money(1), &db).expect("Rates should be found");
    assert_eq!(rates.len(), 1);
    assert_eq!(rates[0].rate, dec(825, 4));
}

#[test]
fn test_specific_trade_agreement() {
    let mut scenario = TaxScenario::new(
        Region::new("DE".to_string(), None).expect("Valid German region"),
        Region::new("FR".to_string(), None).expect("Valid French region"),
        TransactionType::B2C,
    );
    scenario.trade_agreement_override = Some(TradeAgreementOverride::UseAgreement("EU".to_string()));
}

#[test]
fn test_exempt_vat_rate() {
    let db = setup();
    let mut scenario = TaxScenario::new(
        Region::new("GB".to_string(), None).expect("Valid UK region"),
        Region::new("GB".to_string(), None).expect("Valid UK region"),
        TransactionType::B2C,
    );
    scenario.vat_rate = Some(VatRate::Exempt);
    let rates = scenario
        .get_rates(money(100), &db)
        .expect("Rates should be found");
    assert_eq!(rates.len(), 1);
    assert_eq!(rates[0].rate, money(0));
    assert!(matches!(rates[0].tax_type, TaxType::VAT(VatRate::Exempt)));
}

#[test]
fn test_decimal_german_vat_calculation() {
    let db = setup();
    let scenario = TaxScenario::new(
        Region::new("DE".to_string(), None).expect("Valid German region"),
        Region::new("DE".to_string(), None).expect("Valid German region"),
        TransactionType::B2C,
    );
    let tax = scenario
        .calculate_tax_decimal(dec(10000, 2), &db)
        .expect("Tax calculation should succeed");
    assert_eq!(tax, dec(1900, 2));
}

#[test]
fn test_decimal_multiple_compound_calculations() {
    let db = setup();
    let scenario = TaxScenario::new(
        Region::new("CA".to_string(), Some("CA-QC".to_string())).expect("Valid Canadian QC region"),
        Region::new("CA".to_string(), Some("CA-QC".to_string())).expect("Valid Canadian QC region"),
        TransactionType::B2C,
    );
    let amount = dec(799999999, 2);
    let decimal_tax = scenario
        .calculate_tax_decimal(amount, &db)
        .expect("Decimal tax calculation should succeed");
    let rounded_tax = scenario
        .calculate_tax(amount, &db)
        .expect("Float tax calculation should succeed");
    assert_eq!(decimal_tax, dec(1237899998452625, 9));
    assert_eq!(rounded_tax, money(1237900));
}

#[test]
fn load_included_db() {
    let _ = TaxDatabase::new();
}
