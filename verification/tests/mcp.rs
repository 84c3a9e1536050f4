use ponoma::mcp::{list_tools, params_of, prepare_call, tool_for_name, McpError, ToolId};

#[test]
fn catalog_lists_read_and_action_tools() {
    let tools = list_tools();
    assert!(tools.iter().any(|t| t.name == "list-households"));
    assert!(tools.iter().any(|t| t.name == "paper-trade"));
    assert!(tools.len() >= 8);
}

#[test]
fn catalog_order_and_params() {
    let tools = list_tools();
    let names: Vec<&str> = tools.iter().map(|t| t.name).collect();
    assert_eq!(
        names,
        vec![
            "list-households",
            "household-accounts",
            "account-holdings",
            "account-value",
            "household-aum",
            "rebalance-preview",
            "billing-calc",
            "paper-trade"
        ]
    );
    assert_eq!(tools[0].params.len(), 0);
    assert_eq!(tools[7].params, &["account_id", "action", "ticker", "shares", "price"]);
    assert_eq!(tools[7].description, "Paper-execute a trade (through the risk gate)");
    assert_eq!(params_of(ToolId::RebalancePreview), &["account_id", "model", "quotes"]);
}

#[test]
fn every_catalog_name_dispatches_to_its_tool() {
    for t in list_tools() {
        let id = tool_for_name(t.name).expect("advertised tool dispatches");
        assert_eq!(id.name(), t.name);
        assert_eq!(id.description(), t.description);
    }
    assert_eq!(tool_for_name("drop-tables"), None);
    assert_eq!(tool_for_name(""), None);
    assert_eq!(tool_for_name("Paper-Trade"), None);
}

#[test]
fn required_args_are_checked_in_order() {
    assert_eq!(ToolId::PaperTrade.required_args(), &["account_id", "ticker", "shares", "price"]);
    assert_eq!(ToolId::ListHouseholds.required_args().len(), 0);
    assert_eq!(ToolId::BillingCalc.required_args(), &["aum"]);
}

fn keys(ks: &[&str]) -> Vec<String> {
    ks.iter().map(|k| k.to_string()).collect()
}

#[test]
fn calls_are_checked_before_dispatch() {
    assert_eq!(
        prepare_call("drop-tables", &keys(&[]), &keys(&[])),
        Err(McpError::UnknownTool("drop-tables".to_string()))
    );
    assert_eq!(prepare_call("list-households", &keys(&[]), &keys(&[])), Ok(ToolId::ListHouseholds));
    assert_eq!(
        prepare_call("household-aum", &keys(&[]), &keys(&["household_id"])),
        Err(McpError::MissingArg("household_id"))
    );
    assert_eq!(
        prepare_call("paper-trade", &keys(&["account_id", "ticker", "action"]), &keys(&["shares"])),
        Err(McpError::MissingArg("price"))
    );
    assert_eq!(
        prepare_call("paper-trade", &keys(&["account_id", "ticker"]), &keys(&["shares", "price"])),
        Ok(ToolId::PaperTrade)
    );
    assert_eq!(
        prepare_call("billing-calc", &keys(&["aum"]), &keys(&[])),
        Err(McpError::MissingArg("aum"))
    );
}

#[test]
fn error_messages() {
    assert_eq!(McpError::UnknownTool("x".to_string()).message(), "unknown tool: x");
    assert_eq!(McpError::MissingArg("aum").message(), "missing argument: aum");
    assert_eq!(McpError::Db("disk full".to_string()).message(), "disk full");
    assert_eq!(McpError::Paper("risk gate rejected order: size".to_string()).message(), "risk gate rejected order: size");
}
