use ponoma::communities::{search, unique_tickers, ModelListing};

fn listing(name: &str, sub_advisor: &str, category: &str) -> ModelListing {
    ModelListing { name: name.to_string(), sub_advisor: sub_advisor.to_string(), category: category.to_string() }
}

fn seed_listings() -> Vec<ModelListing> {
    vec![
        listing("Core Equity", "Ponoma Strategies", "Equity"),
        listing("Balanced 60/40", "Ponoma Strategies", "Balanced"),
        listing("ESG Leaders", "Green Capital", "ESG"),
    ]
}

#[test]
fn search_matches_category_and_advisor() {
    let models = seed_listings();
    assert_eq!(search(&models, "esg").len(), 1);
    assert_eq!(search(&models, "ponoma").len(), 2);
    assert_eq!(search(&models, "").len(), 3);
}

#[test]
fn search_is_trimmed_case_insensitive_and_ordered() {
    let models = seed_listings();
    assert_eq!(search(&models, "  PONOMA "), vec![0, 1]);
    assert_eq!(search(&models, "60/40"), vec![1]);
    assert_eq!(search(&models, "   "), vec![0, 1, 2]);
    assert!(search(&models, "crypto").is_empty());
    assert!(search(&[], "esg").is_empty());
}

fn tickers(ts: &[&str]) -> Vec<String> {
    ts.iter().map(|t| t.to_string()).collect()
}

#[test]
fn compare_finds_unique_tickers() {
    let (a, b) = unique_tickers(&tickers(&["VTI", "VXUS"]), &tickers(&["VTI", "BND"]));
    assert!(a.contains(&"VXUS".to_string()));
    assert!(b.contains(&"BND".to_string()));
    assert_eq!(a, vec!["VXUS"]);
    assert_eq!(b, vec!["BND"]);
}

#[test]
fn unique_tickers_are_uppercased_distinct_and_sorted() {
    let (a, b) = unique_tickers(&tickers(&["msft", "AAPL", "vti", "MSFT", "bnd"]), &tickers(&["Vti"]));
    assert_eq!(a, vec!["AAPL", "BND", "MSFT"]);
    assert!(b.is_empty());
    let (a, b) = unique_tickers(&tickers(&["X"]), &tickers(&["x"]));
    assert!(a.is_empty() && b.is_empty());
}
