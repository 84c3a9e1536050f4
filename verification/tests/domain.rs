use ponoma::domain::AccountType;

#[test]
fn account_type_tax_status() {
    assert!(AccountType::RothIRA.is_tax_advantaged());
    assert!(!AccountType::Individual.is_tax_advantaged());
    assert_eq!(AccountType::JointJTWROS.as_str(), "Joint JTWROS");
}

#[test]
fn account_type_names_parse_back() {
    let all = [
        AccountType::Individual, AccountType::JointJTWROS, AccountType::JointTenantsInCommon,
        AccountType::TOD, AccountType::RevocableTrust, AccountType::IrrevocableTrust,
        AccountType::TraditionalIRA, AccountType::RothIRA, AccountType::RolloverIRA,
        AccountType::SEPIRA, AccountType::SIMPLEIRA, AccountType::FourOhOneK,
        AccountType::FourOhThreeB, AccountType::FivedTwentyNine, AccountType::HSA,
        AccountType::UTMA, AccountType::UGMA, AccountType::Corporate, AccountType::Partnership,
        AccountType::LLC,
    ];
    for t in all {
        assert_eq!(AccountType::from_str_name(t.as_str()), t);
    }
    assert_eq!(AccountType::from_str_name("Offshore"), AccountType::Individual);
    assert_eq!(AccountType::FourOhOneK.as_str(), "401(k)");
    assert!(AccountType::HSA.is_tax_advantaged());
    assert!(!AccountType::UTMA.is_tax_advantaged());
}

#[test]
fn model_tickers_are_trimmed_and_uppercased() {
    assert_eq!(ponoma::domain::model_ticker("  vti "), Some("VTI".to_string()));
    assert_eq!(ponoma::domain::model_ticker("BND"), Some("BND".to_string()));
    assert_eq!(ponoma::domain::model_ticker("   "), None);
    assert_eq!(ponoma::domain::model_ticker(""), None);
}
