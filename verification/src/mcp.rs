//! The MCP tool surface: the advertised catalog and the name -> tool dispatch table the
//! `tools/call` handler routes through.
use vstd::prelude::*;

use crate::text::{contains_text, str_eq, strs};

verus! {

/// One MCP tool: name, human description, parameter names.
#[derive(Clone, Debug, PartialEq)]
pub struct Tool {
    pub name: &'static str,
    pub description: &'static str,
    pub params: &'static [&'static str],
}

/// The tools of the catalog.
#[derive(Clone, Copy, Debug, PartialEq, Eq, Structural)]
pub enum ToolId {
    ListHouseholds,
    HouseholdAccounts,
    AccountHoldings,
    AccountValue,
    HouseholdAum,
    RebalancePreview,
    BillingCalc,
    PaperTrade,
}

/// The catalog order.
pub open spec fn catalog_ids() -> Seq<ToolId> {
    seq![
        ToolId::ListHouseholds,
        ToolId::HouseholdAccounts,
        ToolId::AccountHoldings,
        ToolId::AccountValue,
        ToolId::HouseholdAum,
        ToolId::RebalancePreview,
        ToolId::BillingCalc,
        ToolId::PaperTrade,
    ]
}

/// The wire name of a tool.
pub open spec fn tool_name(t: ToolId) -> Seq<char> {
    match t {
        ToolId::ListHouseholds => "list-households"@,
        ToolId::HouseholdAccounts => "household-accounts"@,
        ToolId::AccountHoldings => "account-holdings"@,
        ToolId::AccountValue => "account-value"@,
        ToolId::HouseholdAum => "household-aum"@,
        ToolId::RebalancePreview => "rebalance-preview"@,
        ToolId::BillingCalc => "billing-calc"@,
        ToolId::PaperTrade => "paper-trade"@,
    }
}

/// The human description of a tool.
pub open spec fn tool_description(t: ToolId) -> Seq<char> {
    match t {
        ToolId::ListHouseholds => "List all households in the book"@,
        ToolId::HouseholdAccounts => "List accounts in a household"@,
        ToolId::AccountHoldings => "Holdings of an account"@,
        ToolId::AccountValue => "Value an account from quotes"@,
        ToolId::HouseholdAum => "Total AUM of a household"@,
        ToolId::RebalancePreview => "Preview rebalance trades to a model"@,
        ToolId::BillingCalc => "Compute the advisory fee on an AUM"@,
        ToolId::PaperTrade => "Paper-execute a trade (through the risk gate)"@,
    }
}

/// The advertised parameter names of a tool.
pub open spec fn tool_params(t: ToolId) -> Seq<Seq<char>> {
    match t {
        ToolId::ListHouseholds => seq![],
        ToolId::HouseholdAccounts => seq!["household_id"@],
        ToolId::AccountHoldings => seq!["account_id"@],
        ToolId::AccountValue => seq!["account_id"@, "quotes"@],
        ToolId::HouseholdAum => seq!["household_id"@, "quotes"@],
        ToolId::RebalancePreview => seq!["account_id"@, "model"@, "quotes"@],
        ToolId::BillingCalc => seq!["aum"@, "schedule"@],
        ToolId::PaperTrade => seq!["account_id"@, "action"@, "ticker"@, "shares"@, "price"@],
    }
}

/// The arguments a call of the tool cannot do without, in the order they are checked.
pub open spec fn tool_required(t: ToolId) -> Seq<Seq<char>> {
    match t {
        ToolId::ListHouseholds => seq![],
        ToolId::HouseholdAccounts => seq!["household_id"@],
        ToolId::AccountHoldings => seq!["account_id"@],
        ToolId::AccountValue => seq!["account_id"@],
        ToolId::HouseholdAum => seq!["household_id"@],
        ToolId::RebalancePreview => seq!["account_id"@],
        ToolId::BillingCalc => seq!["aum"@],
        ToolId::PaperTrade => seq!["account_id"@, "ticker"@, "shares"@, "price"@],
    }
}

/// The tool a wire name dispatches to.
pub open spec fn tool_of_name(s: Seq<char>) -> Option<ToolId> {
    if s == "list-households"@ {
        Some(ToolId::ListHouseholds)
    } else if s == "household-accounts"@ {
        Some(ToolId::HouseholdAccounts)
    } else if s == "account-holdings"@ {
        Some(ToolId::AccountHoldings)
    } else if s == "account-value"@ {
        Some(ToolId::AccountValue)
    } else if s == "household-aum"@ {
        Some(ToolId::HouseholdAum)
    } else if s == "rebalance-preview"@ {
        Some(ToolId::RebalancePreview)
    } else if s == "billing-calc"@ {
        Some(ToolId::BillingCalc)
    } else if s == "paper-trade"@ {
        Some(ToolId::PaperTrade)
    } else {
        None
    }
}

/// The parameter names of a tool, as they appear in the catalog.
pub fn params_of(t: ToolId) -> (p: &'static [&'static str])
    ensures
        p@.map_values(|s: &str| s@) == tool_params(t),
{
    let p: &'static [&'static str] = match t {
        ToolId::ListHouseholds => &[],
        ToolId::HouseholdAccounts => &["household_id"],
        ToolId::AccountHoldings => &["account_id"],
        ToolId::AccountValue => &["account_id", "quotes"],
        ToolId::HouseholdAum => &["household_id", "quotes"],
        ToolId::RebalancePreview => &["account_id", "model", "quotes"],
        ToolId::BillingCalc => &["aum", "schedule"],
        ToolId::PaperTrade => &["account_id", "action", "ticker", "shares", "price"],
    };
    assert(p@.map_values(|s: &str| s@) =~= tool_params(t));
    p
}

impl ToolId {
    /// The tool's wire name.
    pub fn name(self) -> (s: &'static str)
        ensures
            s@ == tool_name(self),
    {
        match self {
            ToolId::ListHouseholds => "list-households",
            ToolId::HouseholdAccounts => "household-accounts",
            ToolId::AccountHoldings => "account-holdings",
            ToolId::AccountValue => "account-value",
            ToolId::HouseholdAum => "household-aum",
            ToolId::RebalancePreview => "rebalance-preview",
            ToolId::BillingCalc => "billing-calc",
            ToolId::PaperTrade => "paper-trade",
        }
    }

    /// The tool's human description.
    pub fn description(self) -> (s: &'static str)
        ensures
            s@ == tool_description(self),
    {
        match self {
            ToolId::ListHouseholds => "List all households in the book",
            ToolId::HouseholdAccounts => "List accounts in a household",
            ToolId::AccountHoldings => "Holdings of an account",
            ToolId::AccountValue => "Value an account from quotes",
            ToolId::HouseholdAum => "Total AUM of a household",
            ToolId::RebalancePreview => "Preview rebalance trades to a model",
            ToolId::BillingCalc => "Compute the advisory fee on an AUM",
            ToolId::PaperTrade => "Paper-execute a trade (through the risk gate)",
        }
    }

    /// The arguments a call of the tool cannot do without, in the order they are checked.
    pub fn required_args(self) -> (r: &'static [&'static str])
        ensures
            r@.map_values(|s: &str| s@) == tool_required(self),
    {
        let r: &'static [&'static str] = match self {
            ToolId::ListHouseholds => &[],
            ToolId::HouseholdAccounts => &["household_id"],
            ToolId::AccountHoldings => &["account_id"],
            ToolId::AccountValue => &["account_id"],
            ToolId::HouseholdAum => &["household_id"],
            ToolId::RebalancePreview => &["account_id"],
            ToolId::BillingCalc => &["aum"],
            ToolId::PaperTrade => &["account_id", "ticker", "shares", "price"],
        };
        assert(r@.map_values(|s: &str| s@) =~= tool_required(self));
        r
    }
}

/// The tool a wire name dispatches to, if any.
pub fn tool_for_name(name: &str) -> (t: Option<ToolId>)
    ensures
        t == tool_of_name(name@),
{
    if str_eq(name, "list-households") {
        Some(ToolId::ListHouseholds)
    } else if str_eq(name, "household-accounts") {
        Some(ToolId::HouseholdAccounts)
    } else if str_eq(name, "account-holdings") {
        Some(ToolId::AccountHoldings)
    } else if str_eq(name, "account-value") {
        Some(ToolId::AccountValue)
    } else if str_eq(name, "household-aum") {
        Some(ToolId::HouseholdAum)
    } else if str_eq(name, "rebalance-preview") {
        Some(ToolId::RebalancePreview)
    } else if str_eq(name, "billing-calc") {
        Some(ToolId::BillingCalc)
    } else if str_eq(name, "paper-trade") {
        Some(ToolId::PaperTrade)
    } else {
        None
    }
}

fn tool(t: ToolId) -> (x: Tool)
    ensures
        x.name@ == tool_name(t),
        x.description@ == tool_description(t),
        x.params@.map_values(|s: &str| s@) == tool_params(t),
{
    Tool { name: t.name(), description: t.description(), params: params_of(t) }
}

/// The tool catalog (read tools and action tools), in catalog order.
pub fn list_tools() -> (tools: Vec<Tool>)
    ensures
        tools@.len() == catalog_ids().len(),
        forall|i: int|
            0 <= i < tools@.len() ==> (#[trigger] tools@[i]).name@ == tool_name(catalog_ids()[i])
                && tools@[i].description@ == tool_description(catalog_ids()[i])
                && tools@[i].params@.map_values(|s: &str| s@) == tool_params(catalog_ids()[i]),
{
    let mut tools: Vec<Tool> = Vec::new();
    tools.push(tool(ToolId::ListHouseholds));
    tools.push(tool(ToolId::HouseholdAccounts));
    tools.push(tool(ToolId::AccountHoldings));
    tools.push(tool(ToolId::AccountValue));
    tools.push(tool(ToolId::HouseholdAum));
    tools.push(tool(ToolId::RebalancePreview));
    tools.push(tool(ToolId::BillingCalc));
    tools.push(tool(ToolId::PaperTrade));
    tools
}

/// Why a tool call failed.
#[derive(Clone, Debug, PartialEq)]
pub enum McpError {
    /// No tool has this name.
    UnknownTool(String),
    /// A required argument is absent or of the wrong JSON type.
    MissingArg(&'static str),
    /// The book of record failed; carries that failure's message.
    Db(String),
    /// The paper engine failed or its risk gate refused; carries that failure's message.
    Paper(String),
}

/// The message of an error: `unknown tool: ..`, `missing argument: ..`, or the underlying
/// failure's own message.
pub open spec fn mcp_error_text(e: McpError) -> Seq<char> {
    match e {
        McpError::UnknownTool(name) => "unknown tool: "@ + name@,
        McpError::MissingArg(arg) => "missing argument: "@ + arg@,
        McpError::Db(m) => m@,
        McpError::Paper(m) => m@,
    }
}

impl McpError {
    /// The error's message.
    pub fn message(&self) -> (s: String)
        ensures
            s@ == mcp_error_text(*self),
    {
        match self {
            McpError::UnknownTool(name) => String::from_str("unknown tool: ").concat(name.as_str()),
            McpError::MissingArg(arg) => String::from_str("missing argument: ").concat(*arg),
            McpError::Db(m) => m.clone(),
            McpError::Paper(m) => m.clone(),
        }
    }
}

/// The JSON type an argument is read as.
#[derive(Clone, Copy, Debug, PartialEq, Eq, Structural)]
pub enum ArgKind {
    /// Read with `as_str`.
    Text,
    /// Read with `as_f64`.
    Number,
}

/// `aum`, `shares` and `price` are numbers; every other argument is text.
pub open spec fn arg_kind_spec(a: Seq<char>) -> ArgKind {
    if a == "aum"@ || a == "shares"@ || a == "price"@ {
        ArgKind::Number
    } else {
        ArgKind::Text
    }
}

/// The JSON type an argument is read as.
pub fn arg_kind(a: &str) -> (k: ArgKind)
    ensures
        k == arg_kind_spec(a@),
{
    if str_eq(a, "aum") || str_eq(a, "shares") || str_eq(a, "price") {
        ArgKind::Number
    } else {
        ArgKind::Text
    }
}

/// Whether the call supplies `a` with the JSON type it is read as; `texts` are the keys
/// holding strings, `numbers` the keys holding numbers.
pub open spec fn supplied(a: Seq<char>, texts: Seq<Seq<char>>, numbers: Seq<Seq<char>>) -> bool {
    match arg_kind_spec(a) {
        ArgKind::Text => texts.contains(a),
        ArgKind::Number => numbers.contains(a),
    }
}

/// The first of `req` that is not supplied, if any.
pub open spec fn first_missing(req: Seq<Seq<char>>, texts: Seq<Seq<char>>, numbers: Seq<Seq<char>>) -> Option<
    Seq<char>,
>
    decreases req.len(),
{
    if req.len() == 0 {
        None
    } else if !supplied(req[0], texts, numbers) {
        Some(req[0])
    } else {
        first_missing(req.drop_first(), texts, numbers)
    }
}

/// The dispatch decision of a `tools/call`, before any work is done: an unknown name is
/// refused, then the first required argument that is absent (or not of its JSON type) is
/// reported, else the call goes to the named tool.
pub open spec fn call_outcome(name: Seq<char>, texts: Seq<Seq<char>>, numbers: Seq<Seq<char>>) -> Result<
    ToolId,
    Seq<char>,
> {
    match tool_of_name(name) {
        None => Err("unknown tool: "@ + name),
        Some(t) => match first_missing(tool_required(t), texts, numbers) {
            Some(a) => Err("missing argument: "@ + a),
            None => Ok(t),
        },
    }
}

/// Decide how a `tools/call` is dispatched: the tool to run, or the error it is answered
/// with. `texts` are the argument keys holding JSON strings, `numbers` those holding
/// JSON numbers.
pub fn prepare_call(name: &str, texts: &Vec<String>, numbers: &Vec<String>) -> (r: Result<
    ToolId,
    McpError,
>)
    ensures
        (tool_of_name(name@) is None) == (r matches Err(McpError::UnknownTool(_))),
        r matches Err(McpError::UnknownTool(n)) ==> n@ == name@,
        r matches Ok(t) ==> tool_of_name(name@) == Some(t) && first_missing(
            tool_required(t),
            strs(texts@),
            strs(numbers@),
        ) is None,
        r matches Err(McpError::MissingArg(a)) ==> (tool_of_name(name@) matches Some(t)
            && first_missing(tool_required(t), strs(texts@), strs(numbers@)) == Some(a@)),
        r is Err ==> r->Err_0 is UnknownTool || r->Err_0 is MissingArg,
        match r {
            Ok(t) => call_outcome(name@, strs(texts@), strs(numbers@)) == Ok::<ToolId, Seq<char>>(t),
            Err(e) => call_outcome(name@, strs(texts@), strs(numbers@)) == Err::<ToolId, Seq<char>>(mcp_error_text(e)),
        },
{
    let t = match tool_for_name(name) {
        None => {
            return Err(McpError::UnknownTool(String::from_str(name)));
        },
        Some(t) => t,
    };
    let req = t.required_args();
    let ghost rq = tool_required(t);
    let mut i: usize = 0;
    assert(rq.skip(0) =~= rq);
    while i < req.len()
        invariant
            i <= req@.len(),
            tool_of_name(name@) == Some(t),
            rq == tool_required(t),
            req@.map_values(|s: &str| s@) == rq,
            first_missing(rq, strs(texts@), strs(numbers@)) == first_missing(
                rq.skip(i as int),
                strs(texts@),
                strs(numbers@),
            ),
        decreases req@.len() - i,
    {
        let a = req[i];
        assert(rq.skip(i as int)[0] == a@);
        assert(rq.skip(i as int).drop_first() =~= rq.skip(i + 1));
        let present = match arg_kind(a) {
            ArgKind::Text => contains_text(texts, a),
            ArgKind::Number => contains_text(numbers, a),
        };
        if !present {
            return Err(McpError::MissingArg(a));
        }
        i = i + 1;
    }
    assert(rq.skip(i as int) =~= Seq::<Seq<char>>::empty());
    Ok(t)
}

/// The catalog and the dispatcher agree: every advertised tool's name dispatches to that
/// very tool.
pub proof fn lemma_catalog_dispatches(i: int)
    requires
        0 <= i < catalog_ids().len(),
    ensures
        tool_of_name(tool_name(catalog_ids()[i])) == Some(catalog_ids()[i]),
{
    reveal_strlit("list-households");
    reveal_strlit("household-accounts");
    reveal_strlit("account-holdings");
    reveal_strlit("account-value");
    reveal_strlit("household-aum");
    reveal_strlit("rebalance-preview");
    reveal_strlit("billing-calc");
    reveal_strlit("paper-trade");
    assert("list-households"@.len() != "household-accounts"@.len());
    assert("list-households"@.len() != "account-holdings"@.len());
    assert("list-households"@.len() != "account-value"@.len());
    assert("list-households"@.len() != "household-aum"@.len());
    assert("list-households"@.len() != "rebalance-preview"@.len());
    assert("list-households"@.len() != "billing-calc"@.len());
    assert("list-households"@.len() != "paper-trade"@.len());
    assert("household-accounts"@.len() != "account-holdings"@.len());
    assert("household-accounts"@.len() != "account-value"@.len());
    assert("household-accounts"@.len() != "household-aum"@.len());
    assert("household-accounts"@.len() != "rebalance-preview"@.len());
    assert("household-accounts"@.len() != "billing-calc"@.len());
    assert("household-accounts"@.len() != "paper-trade"@.len());
    assert("account-holdings"@.len() != "account-value"@.len());
    assert("account-holdings"@.len() != "household-aum"@.len());
    assert("account-holdings"@.len() != "rebalance-preview"@.len());
    assert("account-holdings"@.len() != "billing-calc"@.len());
    assert("account-holdings"@.len() != "paper-trade"@.len());
    assert("account-value"@[0] != "household-aum"@[0]);
    assert("account-value"@.len() != "rebalance-preview"@.len());
    assert("account-value"@.len() != "billing-calc"@.len());
    assert("account-value"@.len() != "paper-trade"@.len());
    assert("household-aum"@.len() != "rebalance-preview"@.len());
    assert("household-aum"@.len() != "billing-calc"@.len());
    assert("household-aum"@.len() != "paper-trade"@.len());
    assert("rebalance-preview"@.len() != "billing-calc"@.len());
    assert("rebalance-preview"@.len() != "paper-trade"@.len());
    assert("billing-calc"@.len() != "paper-trade"@.len());
}

/// Every argument a tool requires is one it advertises.
pub proof fn lemma_required_are_advertised(t: ToolId)
    ensures
        forall|j: int|
            0 <= j < tool_required(t).len() ==> tool_params(t).contains(
                #[trigger] tool_required(t)[j],
            ),
{
    assert forall|j: int| 0 <= j < tool_required(t).len() implies tool_params(t).contains(
        #[trigger] tool_required(t)[j],
    ) by {
        match t {
            ToolId::PaperTrade => {
                if j == 0 {
                    assert(tool_params(t)[0] == tool_required(t)[j]);
                } else {
                    assert(tool_params(t)[j + 1] == tool_required(t)[j]);
                }
            },
            _ => {
                assert(tool_params(t)[j] == tool_required(t)[j]);
            },
        }
    }
}

proof fn lemma_none_missing(req: Seq<Seq<char>>, texts: Seq<Seq<char>>, numbers: Seq<Seq<char>>)
    requires
        forall|j: int| 0 <= j < req.len() ==> supplied(#[trigger] req[j], texts, numbers),
    ensures
        first_missing(req, texts, numbers) is None,
    decreases req.len(),
{
    if req.len() > 0 {
        assert(supplied(req[0], texts, numbers));
        assert forall|j: int| 0 <= j < req.drop_first().len() implies supplied(
            #[trigger] req.drop_first()[j],
            texts,
            numbers,
        ) by {
            assert(req.drop_first()[j] == req[j + 1]);
        }
        lemma_none_missing(req.drop_first(), texts, numbers);
    }
}

/// A call that names an advertised tool and supplies every argument it requires, each with
/// its JSON type, is dispatched to that tool; extra arguments never matter.
pub proof fn lemma_complete_call_dispatches(i: int, texts: Seq<Seq<char>>, numbers: Seq<Seq<char>>)
    requires
        0 <= i < catalog_ids().len(),
        forall|j: int|
            0 <= j < tool_required(catalog_ids()[i]).len() ==> supplied(
                #[trigger] tool_required(catalog_ids()[i])[j],
                texts,
                numbers,
            ),
    ensures
        call_outcome(tool_name(catalog_ids()[i]), texts, numbers) == Ok::<ToolId, Seq<char>>(
            catalog_ids()[i],
        ),
{
    lemma_catalog_dispatches(i);
    lemma_none_missing(tool_required(catalog_ids()[i]), texts, numbers);
}

} // verus!
