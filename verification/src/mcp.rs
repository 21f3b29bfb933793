//! The Model Context Protocol endpoint: which methods it answers, and the
//! trading tools it offers.

use vstd::prelude::*;
use vstd::string::StringExecFns;
use crate::text::{chars_eq, str_chars};

verus! {

/// A JSON-RPC error.
#[derive(Debug, Clone)]
pub struct McpError {
    pub code: i64,
    pub message: String,
}

/// MCP server for LLM tool use.
pub struct McpServer {
    port: u16,
}

/// The methods the server answers.
#[derive(Debug, Clone, Copy, PartialEq, Eq, Structural)]
pub enum McpMethod {
    ToolsList,
    ToolsCall,
    Initialize,
}

/// The method each name denotes.
pub open spec fn method_named(name: Seq<char>) -> Option<McpMethod> {
    if name == "tools/list"@ {
        Some(McpMethod::ToolsList)
    } else if name == "tools/call"@ {
        Some(McpMethod::ToolsCall)
    } else if name == "initialize"@ {
        Some(McpMethod::Initialize)
    } else {
        None
    }
}

impl McpServer {
    /// A server on the given port.
    pub fn new(port: u16) -> (r: Self)
        ensures
            r.port_view() == port,
    {
        McpServer { port }
    }

    /// The port.
    pub closed spec fn port_view(&self) -> u16 {
        self.port
    }

    /// The port.
    pub fn port(&self) -> (r: u16)
        ensures
            r == self.port_view(),
    {
        self.port
    }

    /// The method a request names, or the JSON-RPC "method not found" error
    /// (code -32601) that quotes the name.
    pub fn dispatch(method: &str) -> (r: Result<McpMethod, McpError>)
        ensures
            match method_named(method@) {
                Some(m) => r == Ok::<McpMethod, McpError>(m),
                None => r matches Err(e) && e.code == -32601 && e.message@ == "Method not found: "@
                    + method@,
            },
    {
        let name = str_chars(method);
        if chars_eq(&name, &str_chars("tools/list")) {
            Ok(McpMethod::ToolsList)
        } else if chars_eq(&name, &str_chars("tools/call")) {
            Ok(McpMethod::ToolsCall)
        } else if chars_eq(&name, &str_chars("initialize")) {
            Ok(McpMethod::Initialize)
        } else {
            Err(McpError { code: -32601, message: String::from_str("Method not found: ").concat(method) })
        }
    }
}

/// One input parameter of a tool: its name, its JSON type, a description
/// when it has one, and the values it may take (any, when none are listed).
pub struct ToolParam {
    pub name: String,
    pub kind: String,
    pub description: Option<String>,
    pub options: Vec<String>,
}

/// A tool parameter as text.
pub ghost struct ParamView {
    pub name: Seq<char>,
    pub kind: Seq<char>,
    pub description: Option<Seq<char>>,
    pub options: Seq<Seq<char>>,
}

impl View for ToolParam {
    type V = ParamView;

    open spec fn view(&self) -> ParamView {
        ParamView {
            name: self.name@,
            kind: self.kind@,
            description: match self.description {
                Some(d) => Some(d@),
                None => None,
            },
            options: self.options@.map_values(|o: String| o@),
        }
    }
}

/// A tool the server offers: its name, what it does, its parameters, and
/// the names of the parameters a call must give.
pub struct ToolSpec {
    pub name: String,
    pub description: String,
    pub params: Vec<ToolParam>,
    pub required: Vec<String>,
}

/// A tool as text.
pub ghost struct ToolView {
    pub name: Seq<char>,
    pub description: Seq<char>,
    pub params: Seq<ParamView>,
    pub required: Seq<Seq<char>>,
}

impl View for ToolSpec {
    type V = ToolView;

    open spec fn view(&self) -> ToolView {
        ToolView {
            name: self.name@,
            description: self.description@,
            params: self.params@.map_values(|p: ToolParam| p@),
            required: self.required@.map_values(|r: String| r@),
        }
    }
}

/// A parameter of a JSON type with no description.
pub open spec fn plain(name: Seq<char>, kind: Seq<char>) -> ParamView {
    ParamView { name, kind, description: None, options: Seq::empty() }
}

/// A parameter of a JSON type with a description.
pub open spec fn described(name: Seq<char>, kind: Seq<char>, d: Seq<char>) -> ParamView {
    ParamView { name, kind, description: Some(d), options: Seq::empty() }
}

/// A string parameter that takes one of two values.
pub open spec fn either(name: Seq<char>, a: Seq<char>, b: Seq<char>) -> ParamView {
    ParamView { name, kind: "string"@, description: None, options: seq![a, b] }
}

/// The trading tools, in the order the server lists them.
pub open spec fn tool_catalog() -> Seq<ToolView> {
    seq![
        ToolView {
            name: "place_order"@,
            description: "Place a trading order on an exchange"@,
            params: seq![
                described("connector"@, "string"@, "Exchange name"@),
                described("pair"@, "string"@, "Trading pair e.g. BTC-USDT"@),
                either("side"@, "BUY"@, "SELL"@),
                described("amount"@, "number"@, "Order quantity"@),
                either("order_type"@, "MARKET"@, "LIMIT"@),
                described("price"@, "number"@, "Limit price (required for LIMIT orders)"@),
            ],
            required: seq!["connector"@, "pair"@, "side"@, "amount"@, "order_type"@],
        },
        ToolView {
            name: "cancel_order"@,
            description: "Cancel an existing order"@,
            params: seq![plain("connector"@, "string"@), plain("pair"@, "string"@), plain("order_id"@, "string"@)],
            required: seq!["connector"@, "pair"@, "order_id"@],
        },
        ToolView {
            name: "get_balance"@,
            description: "Get account balance for an exchange"@,
            params: seq![plain("connector"@, "string"@)],
            required: seq!["connector"@],
        },
        ToolView {
            name: "get_positions"@,
            description: "Get all open positions"@,
            params: seq![plain("connector"@, "string"@)],
            required: Seq::empty(),
        },
        ToolView {
            name: "get_market_data"@,
            description: "Get current market data for a trading pair"@,
            params: seq![plain("connector"@, "string"@), plain("pair"@, "string"@)],
            required: seq!["connector"@, "pair"@],
        },
    ]
}

/// Each name a tool requires is the name of one of its parameters.
pub open spec fn required_listed(t: ToolView) -> bool {
    forall|k: int|
        #![trigger t.required[k]]
        0 <= k < t.required.len() ==> exists|j: int|
            #![trigger t.params[j]]
            0 <= j < t.params.len() && t.params[j].name == t.required[k]
}

/// Every tool requires only parameters it has.
pub proof fn law_required_are_parameters()
    ensures
        forall|i: int| 0 <= i < tool_catalog().len() ==> required_listed(#[trigger] tool_catalog()[i]),
{
    let c = tool_catalog();
    assert(c[0].params[0].name == c[0].required[0]);
    assert(c[0].params[1].name == c[0].required[1]);
    assert(c[0].params[2].name == c[0].required[2]);
    assert(c[0].params[3].name == c[0].required[3]);
    assert(c[0].params[4].name == c[0].required[4]);
    assert(required_listed(c[0]));
    assert(c[1].params[0].name == c[1].required[0]);
    assert(c[1].params[1].name == c[1].required[1]);
    assert(c[1].params[2].name == c[1].required[2]);
    assert(required_listed(c[1]));
    assert(c[2].params[0].name == c[2].required[0]);
    assert(required_listed(c[2]));
    assert(required_listed(c[3]));
    assert(c[4].params[0].name == c[4].required[0]);
    assert(c[4].params[1].name == c[4].required[1]);
    assert(required_listed(c[4]));
}

/// A parameter with no listed values.
fn param(name: &str, kind: &str, description: Option<&str>) -> (r: ToolParam)
    ensures
        r@ == (ParamView {
            name: name@,
            kind: kind@,
            description: match description {
                Some(d) => Some(d@),
                None => None,
            },
            options: Seq::empty(),
        }),
{
    let r = ToolParam {
        name: String::from_str(name),
        kind: String::from_str(kind),
        description: match description {
            Some(d) => Some(String::from_str(d)),
            None => None,
        },
        options: Vec::new(),
    };
    assert(r@.options =~= Seq::<Seq<char>>::empty());
    r
}

/// The texts as strings, in order.
fn strings(xs: Vec<&str>) -> (r: Vec<String>)
    ensures
        r@.map_values(|s: String| s@) == xs@.map_values(|x: &str| x@),
{
    let mut r: Vec<String> = Vec::new();
    let mut i: usize = 0;
    while i < xs.len()
        invariant
            i <= xs@.len(),
            r@.map_values(|s: String| s@) == xs@.map_values(|x: &str| x@).take(i as int),
        decreases xs.len() - i,
    {
        let ghost before = r@;
        let x = String::from_str(xs[i]);
        assert(x@ == xs@[i as int]@);
        r.push(x);
        assert(r@.map_values(|s: String| s@) =~= before.map_values(|s: String| s@).push(x@));
        assert(xs@.map_values(|x: &str| x@).take(i + 1) =~= xs@.map_values(|x: &str| x@).take(
            i as int,
        ).push(xs@[i as int]@));
        i = i + 1;
    }
    assert(xs@.map_values(|x: &str| x@).take(xs@.len() as int) =~= xs@.map_values(|x: &str| x@));
    r
}

/// A string parameter that takes one of two values.
fn either_param(name: &str, a: &str, b: &str) -> (r: ToolParam)
    ensures
        r@ == either(name@, a@, b@),
{
    let options = strings(vec![a, b]);
    let r = ToolParam {
        name: String::from_str(name),
        kind: String::from_str("string"),
        description: None,
        options,
    };
    assert(r@.options =~= seq![a@, b@]);
    r
}

/// A tool from its parts.
fn tool(name: &str, description: &str, params: Vec<ToolParam>, required: Vec<&str>) -> (r: ToolSpec)
    ensures
        r@ == (ToolView {
            name: name@,
            description: description@,
            params: params@.map_values(|p: ToolParam| p@),
            required: required@.map_values(|x: &str| x@),
        }),
{
    ToolSpec {
        name: String::from_str(name),
        description: String::from_str(description),
        params,
        required: strings(required),
    }
}

/// The trading tools the server offers, in order: `place_order`,
/// `cancel_order`, `get_balance`, `get_positions`, `get_market_data`, each
/// with its parameters and the parameters a call must give.
pub fn tool_specs() -> (r: Vec<ToolSpec>)
    ensures
        r@.map_values(|t: ToolSpec| t@) == tool_catalog(),
        forall|i: int| 0 <= i < r@.len() ==> required_listed(#[trigger] r@[i]@),
{
    let place = tool(
        "place_order",
        "Place a trading order on an exchange",
        vec![
            param("connector", "string", Some("Exchange name")),
            param("pair", "string", Some("Trading pair e.g. BTC-USDT")),
            either_param("side", "BUY", "SELL"),
            param("amount", "number", Some("Order quantity")),
            either_param("order_type", "MARKET", "LIMIT"),
            param("price", "number", Some("Limit price (required for LIMIT orders)")),
        ],
        vec!["connector", "pair", "side", "amount", "order_type"],
    );
    let cancel = tool(
        "cancel_order",
        "Cancel an existing order",
        vec![param("connector", "string", None), param("pair", "string", None), param("order_id", "string", None)],
        vec!["connector", "pair", "order_id"],
    );
    let balance = tool(
        "get_balance",
        "Get account balance for an exchange",
        vec![param("connector", "string", None)],
        vec!["connector"],
    );
    let positions = tool(
        "get_positions",
        "Get all open positions",
        vec![param("connector", "string", None)],
        Vec::new(),
    );
    let market = tool(
        "get_market_data",
        "Get current market data for a trading pair",
        vec![param("connector", "string", None), param("pair", "string", None)],
        vec!["connector", "pair"],
    );
    let c = Ghost(tool_catalog());
    assert(place@.params =~= c@[0].params);
    assert(place@.required =~= c@[0].required);
    assert(place@ == c@[0]);
    assert(cancel@.params =~= c@[1].params);
    assert(cancel@.required =~= c@[1].required);
    assert(cancel@ == c@[1]);
    assert(balance@.params =~= c@[2].params);
    assert(balance@.required =~= c@[2].required);
    assert(balance@ == c@[2]);
    assert(positions@.params =~= c@[3].params);
    assert(positions@.required =~= c@[3].required);
    assert(positions@ == c@[3]);
    assert(market@.params =~= c@[4].params);
    assert(market@.required =~= c@[4].required);
    assert(market@ == c@[4]);
    let r = vec![place, cancel, balance, positions, market];
    assert(r@.map_values(|t: ToolSpec| t@) =~= tool_catalog());
    proof {
        law_required_are_parameters();
        assert forall|i: int| 0 <= i < r@.len() implies required_listed(#[trigger] r@[i]@) by {
            assert(r@[i]@ == tool_catalog()[i]);
        }
    }
    r
}

/// The server answers exactly three method names: `tools/list`,
/// `tools/call` and `initialize`, each with its own method.
pub proof fn law_method_names(name: Seq<char>)
    ensures
        method_named("tools/list"@) == Some(McpMethod::ToolsList),
        method_named("tools/call"@) == Some(McpMethod::ToolsCall),
        method_named("initialize"@) == Some(McpMethod::Initialize),
        method_named(name) is Some <==> (name == "tools/list"@ || name == "tools/call"@ || name
            == "initialize"@),
{
    reveal_strlit("tools/list");
    reveal_strlit("tools/call");
    reveal_strlit("initialize");
    assert("tools/call"@ != "tools/list"@) by {
        assert("tools/call"@[6] != "tools/list"@[6]);
    }
    assert("initialize"@ != "tools/list"@) by {
        assert("initialize"@[0] != "tools/list"@[0]);
    }
    assert("initialize"@ != "tools/call"@) by {
        assert("initialize"@[0] != "tools/call"@[0]);
    }
}

/// The tools are listed as `place_order`, `cancel_order`, `get_balance`,
/// `get_positions` and `get_market_data`, in that order; an order names its
/// connector, pair, side, amount, order type and price, and a cancellation
/// its connector, pair and order id.
pub proof fn law_tool_names()
    ensures
        tool_catalog().len() == 5,
        tool_catalog()[0].name == "place_order"@,
        tool_catalog()[1].name == "cancel_order"@,
        tool_catalog()[2].name == "get_balance"@,
        tool_catalog()[3].name == "get_positions"@,
        tool_catalog()[4].name == "get_market_data"@,
        tool_catalog()[0].params.map_values(|p: ParamView| p.name) == seq![
            "connector"@,
            "pair"@,
            "side"@,
            "amount"@,
            "order_type"@,
            "price"@,
        ],
        tool_catalog()[1].params.map_values(|p: ParamView| p.name) == seq![
            "connector"@,
            "pair"@,
            "order_id"@,
        ],
        tool_catalog()[2].params.map_values(|p: ParamView| p.name) == seq!["connector"@],
        tool_catalog()[3].params.map_values(|p: ParamView| p.name) == seq!["connector"@],
        tool_catalog()[4].params.map_values(|p: ParamView| p.name) == seq!["connector"@, "pair"@],
        tool_catalog()[0].params[2].options == seq!["BUY"@, "SELL"@],
        tool_catalog()[0].params[4].options == seq!["MARKET"@, "LIMIT"@],
{
    let c = tool_catalog();
    assert(c[0].params.map_values(|p: ParamView| p.name) =~= seq![
        "connector"@,
        "pair"@,
        "side"@,
        "amount"@,
        "order_type"@,
        "price"@,
    ]);
    assert(c[1].params.map_values(|p: ParamView| p.name) =~= seq!["connector"@, "pair"@, "order_id"@]);
    assert(c[2].params.map_values(|p: ParamView| p.name) =~= seq!["connector"@]);
    assert(c[3].params.map_values(|p: ParamView| p.name) =~= seq!["connector"@]);
    assert(c[4].params.map_values(|p: ParamView| p.name) =~= seq!["connector"@, "pair"@]);
}

} // verus!
