use investment_management::financial_entities::entity_extractor::FinancialEntityType;
use investment_management::financial_entities::entity_extractor::find_entity_names;

#[test]
fn entity_type_labels() {
    assert_eq!(FinancialEntityType::Account.label(), "Account");
    assert_eq!(FinancialEntityType::Person.label(), "Person");
    assert_eq!(FinancialEntityType::Other("Trust".to_string()).label(), "Other(Trust)");
}

#[test]
fn known_names_are_found_group_by_group() {
    let found = find_entity_names("My 401K and my Mortgage, plus $50,000 in stock");
    let names: Vec<(&str, usize)> = found.iter().map(|m| (m.name, m.start)).collect();
    assert_eq!(names, vec![("401[k|K]", 3), ("mortgage", 15), ("stock", 41)]);
    assert_eq!(found[0].entity_type, FinancialEntityType::Account);
    assert_eq!(found[1].entity_type, FinancialEntityType::Liability);
    assert_eq!(found[2].entity_type, FinancialEntityType::Asset);
    assert!(find_entity_names("nothing financial here").is_empty());
}

#[test]
fn test_rule_based_extraction() {
    // Which names are found and their types; the amounts next to them are
    // floating-point values read by the command-line program.
    let entities = find_entity_names("I have a 401k account with $50,000 in it.");
    assert!(!entities.is_empty());
    assert_eq!(entities[0].name, "401[k|K]");
    assert_eq!(entities[0].entity_type.label(), "Account");

    let entities = find_entity_names("I own some stocks and ETFs in my portfolio.");
    assert!(!entities.is_empty());
    assert!(entities.iter().any(|e| e.name == "stock" && e.entity_type.label() == "Asset"));
    assert!(entities.iter().any(|e| e.name == "ETF" && e.entity_type.label() == "Asset"));

    let entities = find_entity_names("I have a mortgage of $300,000 on my house.");
    assert!(!entities.is_empty());
    assert_eq!(entities[0].name, "mortgage");
    assert_eq!(entities[0].entity_type.label(), "Liability");
}
