use ponoma::roles::Capability::{
    AdminConfig, EditModels, InteractiveLogin, ManageBilling, ManageHouseholds, PaperTrade,
    ViewBook,
};
use ponoma::roles::Role::{ApiOnly, FirmAdmin, OrionAdmin, TeamAdmin, User};
use ponoma::roles::{can, capabilities, Role};

#[test]
fn capabilities_map_complete() {
    let caps = capabilities(FirmAdmin);
    assert_eq!(caps.len(), 7);
    assert!(caps.iter().any(|(c, ok)| *c == "ManageBilling" && *ok));
    assert!(caps.iter().any(|(c, ok)| *c == "AdminConfig" && *ok));
    let user = capabilities(User);
    assert!(user.iter().any(|(c, ok)| *c == "ManageBilling" && !*ok));
}

#[test]
fn api_only_cannot_login_but_can_read() {
    assert!(!can(ApiOnly, InteractiveLogin));
    assert!(can(ApiOnly, ViewBook));
    assert!(!can(ApiOnly, ManageHouseholds));
}

#[test]
fn billing_needs_firm_admin() {
    assert!(can(OrionAdmin, ManageBilling));
    assert!(can(FirmAdmin, ManageBilling));
    assert!(!can(TeamAdmin, ManageBilling));
    assert!(!can(User, ManageBilling));
}

#[test]
fn user_can_trade_and_edit_models_but_not_admin() {
    assert!(can(User, PaperTrade));
    assert!(can(User, EditModels));
    assert!(!can(User, AdminConfig));
    assert!(!can(User, ManageHouseholds));
}

#[test]
fn manage_households_needs_team_admin() {
    assert!(can(TeamAdmin, ManageHouseholds));
    assert!(can(FirmAdmin, ManageHouseholds));
    assert!(!can(User, ManageHouseholds));
}

#[test]
fn role_names_roundtrip() {
    assert_eq!(OrionAdmin.as_str(), "OrionAdmin");
    assert_eq!(ApiOnly.as_str(), "ApiOnly");
}

#[test]
fn every_role_name_parses_back() {
    for r in [OrionAdmin, FirmAdmin, TeamAdmin, User, ApiOnly] {
        assert_eq!(Role::from_str_name(r.as_str()), r);
    }
    assert_eq!(Role::from_str_name("somebody"), User);
}

#[test]
fn privilege_ladder_on_every_capability() {
    let ladder = [ApiOnly, User, TeamAdmin, FirmAdmin, OrionAdmin];
    let caps = [ViewBook, PaperTrade, EditModels, ManageHouseholds, ManageBilling, AdminConfig, InteractiveLogin];
    for c in caps {
        for i in 0..ladder.len() {
            for j in i..ladder.len() {
                if can(ladder[i], c) {
                    assert!(can(ladder[j], c));
                }
            }
        }
    }
}

#[test]
fn capability_map_order_and_values() {
    let caps = capabilities(TeamAdmin);
    let names: Vec<&str> = caps.iter().map(|(n, _)| *n).collect();
    assert_eq!(
        names,
        vec!["ViewBook", "PaperTrade", "EditModels", "ManageHouseholds", "ManageBilling", "AdminConfig", "InteractiveLogin"]
    );
    let oks: Vec<bool> = caps.iter().map(|(_, ok)| *ok).collect();
    assert_eq!(oks, vec![true, true, true, true, false, false, true]);
}
