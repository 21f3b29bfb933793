//! The format of `agent.md` files: YAML frontmatter between `---` fences,
//! then a Markdown body whose `## Goal` and `## Rules` sections give the
//! agent's goal and rules.

use vstd::prelude::*;
use vstd::string::StringExecFns;
use crate::domain::error::FerrumError;
use crate::domain::types::{dash_pair, TradingPair};
use crate::text::{
    chars_eq, chars_to_string, find, find_chars, lines, lines_of, slice_chars, starts_with, str_chars,
    strip_all_prefix, strip_all_prefix_chars, trim, trim_chars, views,
};

verus! {

/// Parser for `agent.md` files.
pub struct AgentDefinitionParser;

/// The frontmatter and body of an agent file: after trimming, the text must
/// open with `---`; the frontmatter runs from there to the next `---`, and
/// the body is everything after that fence.
pub open spec fn frontmatter_parts(content: Seq<char>) -> Option<(Seq<char>, Seq<char>)> {
    let t = trim(content);
    let rest = t.skip(3);
    if !"---"@.is_prefix_of(t) {
        None
    } else {
        match find(rest, "---"@) {
            Some(e) => Some((rest.take(e), rest.skip(e + 3))),
            None => None,
        }
    }
}

/// Where the scan of a Markdown body stands after some lines.
pub ghost struct BodyScan {
    pub goal: Seq<char>,
    pub rules: Seq<Seq<char>>,
    pub in_goal: bool,
    pub in_rules: bool,
}

/// A heading that opens the rules section.
pub open spec fn is_rules_heading(t: Seq<char>) -> bool {
    t == "## Rules"@ || t == "## Strategy"@ || t == "## Strategy Rules"@
}

/// A bullet line: one that starts with `- ` or `* `.
pub open spec fn is_bullet(t: Seq<char>) -> bool {
    "- "@.is_prefix_of(t) || "* "@.is_prefix_of(t)
}

/// The text of a bullet: without every leading `- `, then without every
/// leading `* `.
pub open spec fn bullet_text(t: Seq<char>) -> Seq<char> {
    strip_all_prefix(strip_all_prefix(t, "- "@), "* "@)
}

/// One line of the body scan. Blank lines are skipped; `## Goal` opens the
/// goal section, a rules heading the rules section, and any other `## `
/// heading closes both; the first line of the goal section is the goal; in the
/// rules section each bullet with text is a rule.
pub open spec fn scan_line(st: BodyScan, line: Seq<char>) -> BodyScan {
    let t = trim(line);
    if t.len() == 0 {
        st
    } else if t == "## Goal"@ {
        BodyScan { goal: st.goal, rules: st.rules, in_goal: true, in_rules: false }
    } else if is_rules_heading(t) {
        BodyScan { goal: st.goal, rules: st.rules, in_goal: false, in_rules: true }
    } else if "## "@.is_prefix_of(t) {
        BodyScan { goal: st.goal, rules: st.rules, in_goal: false, in_rules: false }
    } else if st.in_goal && st.goal.len() == 0 {
        BodyScan { goal: t, rules: st.rules, in_goal: false, in_rules: st.in_rules }
    } else if st.in_rules && is_bullet(t) && bullet_text(t).len() > 0 {
        BodyScan { goal: st.goal, rules: st.rules.push(bullet_text(t)), in_goal: st.in_goal, in_rules: st.in_rules }
    } else {
        st
    }
}

/// A `## Rules`, `## Strategy` or `## Strategy Rules` heading line opens the
/// rules section and closes the goal section, wherever the scan stands,
/// keeping the goal and the rules read so far.
pub proof fn law_rules_headings_open_rules(st: BodyScan, line: Seq<char>)
    requires
        trim(line) == "## Rules"@ || trim(line) == "## Strategy"@ || trim(line) == "## Strategy Rules"@,
    ensures
        scan_line(st, line) == (BodyScan { goal: st.goal, rules: st.rules, in_goal: false, in_rules: true }),
{
    reveal_strlit("## Goal");
    reveal_strlit("## Rules");
    reveal_strlit("## Strategy");
    reveal_strlit("## Strategy Rules");
    assert("## Goal"@.len() == 7);
    assert("## Rules"@.len() == 8);
    assert("## Strategy"@.len() == 11);
    assert("## Strategy Rules"@.len() == 17);
}

/// A `## Goal` heading line opens the goal section and closes the rules
/// section; the first line of text in the goal section, trimmed, becomes
/// the goal when none has been read, and closes the goal section.
pub proof fn law_goal_is_first_line(st: BodyScan, heading: Seq<char>, line: Seq<char>)
    ensures
        trim(heading) == "## Goal"@ ==> scan_line(st, heading) == (BodyScan {
            goal: st.goal,
            rules: st.rules,
            in_goal: true,
            in_rules: false,
        }),
        (st.in_goal && st.goal.len() == 0 && trim(line).len() > 0 && trim(line)[0] != '#')
            ==> scan_line(st, line) == (BodyScan {
            goal: trim(line),
            rules: st.rules,
            in_goal: false,
            in_rules: st.in_rules,
        }),
{
    reveal_strlit("## Goal");
    reveal_strlit("## Rules");
    reveal_strlit("## Strategy");
    reveal_strlit("## Strategy Rules");
    reveal_strlit("## ");
    let t = trim(line);
    if t.len() > 0 && t[0] != '#' {
        assert(t != "## Goal"@);
        assert(t != "## Rules"@);
        assert(t != "## Strategy"@);
        assert(t != "## Strategy Rules"@);
        assert("## "@[0] == '#');
        assert(!"## "@.is_prefix_of(t));
    }
}

/// Inside the rules section (with no goal pending), a line `- {text}` adds
/// `{text}` as the next rule, whenever the text is non-empty and does not
/// itself open with another bullet marker; the sections stay as they are.
pub proof fn law_bullet_adds_rule(st: BodyScan, line: Seq<char>, text: Seq<char>)
    requires
        st.in_rules,
        !(st.in_goal && st.goal.len() == 0),
        trim(line) == "- "@ + text,
        text.len() > 0,
        !"- "@.is_prefix_of(text),
        !"* "@.is_prefix_of(text),
    ensures
        scan_line(st, line) == (BodyScan {
            goal: st.goal,
            rules: st.rules.push(text),
            in_goal: st.in_goal,
            in_rules: true,
        }),
{
    reveal_strlit("## Goal");
    reveal_strlit("## Rules");
    reveal_strlit("## Strategy");
    reveal_strlit("## Strategy Rules");
    reveal_strlit("## ");
    reveal_strlit("- ");
    reveal_strlit("* ");
    let t = trim(line);
    assert(t[0] == '-');
    assert("## Goal"@[0] == '#');
    assert("## Rules"@[0] == '#');
    assert("## Strategy"@[0] == '#');
    assert("## Strategy Rules"@[0] == '#');
    assert("## "@[0] == '#');
    assert(!"## "@.is_prefix_of(t));
    assert("- "@.is_prefix_of(t)) by {
        assert(t.take(2) =~= "- "@);
    }
    assert(t.skip(2) =~= text);
    assert(strip_all_prefix(t, "- "@) == strip_all_prefix(text, "- "@));
    assert(strip_all_prefix(text, "- "@) == text);
    assert(strip_all_prefix(text, "* "@) == text);
}

/// The scan of a sequence of lines, from an empty goal outside any section.
pub open spec fn scan_lines(ls: Seq<Seq<char>>) -> BodyScan
    decreases ls.len(),
{
    if ls.len() == 0 {
        BodyScan { goal: Seq::empty(), rules: Seq::empty(), in_goal: false, in_rules: false }
    } else {
        scan_line(scan_lines(ls.drop_last()), ls.last())
    }
}

/// The frontmatter fields the configuration reads, each as its YAML value
/// reads: a field that is absent or of another kind is `None`.
pub struct FrontmatterFields {
    /// `name`, as a string.
    pub name: Option<String>,
    /// `tick_interval_secs`, as an integer.
    pub tick_interval_secs: Option<i64>,
    /// `connectors`, as a sequence; each element as a string.
    pub connectors: Option<Vec<Option<String>>>,
    /// `trading_pair`, as a string.
    pub trading_pair: Option<String>,
    /// `grid_levels`, as an integer.
    pub grid_levels: Option<i64>,
    /// `leverage`, as an integer.
    pub leverage: Option<i64>,
}

/// The frontmatter fields as text and integers.
pub ghost struct FieldsView {
    pub name: Option<Seq<char>>,
    pub tick_interval_secs: Option<i64>,
    pub connectors: Option<Seq<Option<Seq<char>>>>,
    pub trading_pair: Option<Seq<char>>,
    pub grid_levels: Option<i64>,
    pub leverage: Option<i64>,
}

/// The text of an optional string.
pub open spec fn opt_text(o: Option<String>) -> Option<Seq<char>> {
    match o {
        Some(s) => Some(s@),
        None => None,
    }
}

/// The texts of a sequence of optional strings.
pub open spec fn opt_texts(xs: Seq<Option<String>>) -> Seq<Option<Seq<char>>> {
    xs.map_values(|x: Option<String>| opt_text(x))
}

impl View for FrontmatterFields {
    type V = FieldsView;

    open spec fn view(&self) -> FieldsView {
        FieldsView {
            name: opt_text(self.name),
            tick_interval_secs: self.tick_interval_secs,
            connectors: match self.connectors {
                Some(xs) => Some(opt_texts(xs@)),
                None => None,
            },
            trading_pair: opt_text(self.trading_pair),
            grid_levels: self.grid_levels,
            leverage: self.leverage,
        }
    }
}

/// The fields that YAML frontmatter gives, as `serde_yaml` reads the text
/// into a value and the fields are taken from it; or the parser's error
/// message when the text is not YAML.
pub uninterp spec fn yaml_fields(frontmatter: Seq<char>) -> Result<FieldsView, Seq<char>>;

/// `serde_yaml::from_str` into a `serde_yaml::Value`, then each field read
/// from the value by its kind. Trusted: the result is `yaml_fields` of the
/// text, and a parse error gives the parser's message.
#[verifier::external_body]
pub fn read_frontmatter_fields(frontmatter: &str) -> (r: Result<FrontmatterFields, String>)
    ensures
        match r {
            Ok(f) => yaml_fields(frontmatter@) == Ok::<FieldsView, Seq<char>>(f@),
            Err(e) => yaml_fields(frontmatter@) == Err::<FieldsView, Seq<char>>(e@),
        },
{
    let v: serde_yaml::Value = serde_yaml::from_str(frontmatter).map_err(|e| e.to_string())?;
    let text = |k: &str| v.get(k).and_then(|x| x.as_str()).map(String::from);
    let integer = |k: &str| v.get(k).and_then(|x| x.as_i64());
    let items = v.get("connectors").and_then(|x| x.as_sequence());
    Ok(FrontmatterFields {
        name: text("name"),
        tick_interval_secs: integer("tick_interval_secs"),
        connectors: items.map(|q| q.iter().map(|c| c.as_str().map(String::from)).collect()),
        trading_pair: text("trading_pair"),
        grid_levels: integer("grid_levels"),
        leverage: integer("leverage"),
    })
}

/// The integer and text settings of an agent's configuration.
pub struct ResolvedConfig {
    pub name: String,
    pub tick_interval_secs: u64,
    pub connectors: Vec<String>,
    pub trading_pair: TradingPair,
    pub grid_levels: Option<u32>,
    pub leverage: Option<u32>,
}

/// How `{:?}` writes a string: quoted, with escapes.
pub uninterp spec fn debug_text(s: Seq<char>) -> Seq<char>;

/// `<str as Debug>::fmt`, through `format!("{:?}")`. Trusted: its result is
/// `debug_text` of the string.
#[verifier::external_body]
fn debug_string(s: &str) -> (r: String)
    ensures
        r@ == debug_text(s@),
{
    format!("{:?}", s)
}

/// The strings among the elements of a sequence, in order.
pub open spec fn present_strings(xs: Seq<Option<Seq<char>>>) -> Seq<Seq<char>> {
    xs.filter_map(|x: Option<Seq<char>>| x)
}

/// The text of the trading pair the configuration names: `BTC-USDT` when
/// none is given.
pub open spec fn pair_text(v: FieldsView) -> Seq<char> {
    match v.trading_pair {
        Some(t) => t,
        None => "BTC-USDT"@,
    }
}

/// The configuration the fields resolve to: the name defaults to
/// `unnamed-agent`, the tick interval to 60 seconds (a negative one wraps,
/// as a cast to `u64` does), the connectors are the string elements of the
/// sequence (none without one), the trading pair is read from its
/// `BASE-QUOTE` text (`BTC-USDT` by default), and grid levels and leverage
/// narrow to 32 bits.
pub open spec fn resolves_to(v: FieldsView, c: ResolvedConfig) -> bool {
    &&& c.name@ == (match v.name {
        Some(n) => n,
        None => "unnamed-agent"@,
    })
    &&& c.tick_interval_secs == (match v.tick_interval_secs {
        Some(t) => t,
        None => 60,
    }) as u64
    &&& c.connectors@.map_values(|s: String| s@) == (match v.connectors {
        Some(xs) => present_strings(xs),
        None => Seq::empty(),
    })
    &&& dash_pair(pair_text(v)) == Some(c.trading_pair@)
    &&& c.grid_levels == (match v.grid_levels {
        Some(g) => Some(g as u32),
        None => None::<u32>,
    })
    &&& c.leverage == (match v.leverage {
        Some(l) => Some(l as u32),
        None => None::<u32>,
    })
}

/// The message of the configuration error for a pair that does not read.
pub open spec fn pair_error_text(v: FieldsView) -> Seq<char> {
    "Invalid trading_pair: InvalidTradingPair("@ + debug_text(pair_text(v)) + ")"@
}

/// The message of the error for an agent file without both fences.
pub open spec fn fence_error_text(content: Seq<char>) -> Seq<char> {
    if "---"@.is_prefix_of(trim(content)) {
        "Unclosed YAML frontmatter"@
    } else {
        "Missing YAML frontmatter"@
    }
}

impl AgentDefinitionParser {
    /// Reads an agent file: splits off the frontmatter, reads its fields as
    /// YAML, resolves the configuration, and reads the goal and the rules
    /// from the body.
    pub fn parse(content: &str) -> (r: Result<(ResolvedConfig, String, Vec<String>), FerrumError>)
        ensures
            match frontmatter_parts(content@) {
                None => r matches Err(FerrumError::ConfigError(m)) && m@ == fence_error_text(content@),
                Some((f, b)) => match yaml_fields(f) {
                    Err(msg) => r matches Err(FerrumError::ConfigError(m)) && m@
                        == "Invalid YAML frontmatter: "@ + msg,
                    Ok(v) => match r {
                        Ok((c, goal, rules)) => {
                            &&& resolves_to(v, c)
                            &&& goal@ == scan_lines(lines(b)).goal
                            &&& rules@.map_values(|s: String| s@) == scan_lines(lines(b)).rules
                        },
                        Err(e) => dash_pair(pair_text(v)) is None && (e matches FerrumError::ConfigError(
                            m,
                        ) && m@ == pair_error_text(v)),
                    },
                },
            },
    {
        let (frontmatter, body) = match Self::split_frontmatter(content) {
            Ok(parts) => parts,
            Err(e) => return Err(e),
        };
        let fields = match read_frontmatter_fields(frontmatter.as_str()) {
            Ok(f) => f,
            Err(msg) => {
                return Err(
                    FerrumError::ConfigError(
                        String::from_str("Invalid YAML frontmatter: ").concat(msg.as_str()),
                    ),
                );
            },
        };
        let config = match Self::resolve_config(fields) {
            Ok(c) => c,
            Err(e) => return Err(e),
        };
        let (goal, rules) = Self::parse_markdown_body(body.as_str());
        Ok((config, goal, rules))
    }

    /// Resolves the integer and text settings from the frontmatter fields,
    /// as `resolves_to` says. A pair that does not read is a configuration
    /// error that quotes the pair error.
    pub fn resolve_config(fields: FrontmatterFields) -> (r: Result<ResolvedConfig, FerrumError>)
        ensures
            match r {
                Ok(c) => resolves_to(fields@, c),
                Err(e) => dash_pair(pair_text(fields@)) is None && (e matches FerrumError::ConfigError(m)
                    && m@ == pair_error_text(fields@)),
            },
    {
        let ghost v = fields@;
        let pair_str = match &fields.trading_pair {
            Some(t) => t.as_str(),
            None => "BTC-USDT",
        };
        let trading_pair = match TradingPair::from_dash(pair_str) {
            Ok(p) => p,
            Err(_) => {
                let d = debug_string(pair_str);
                return Err(
                    FerrumError::ConfigError(
                        String::from_str("Invalid trading_pair: InvalidTradingPair(").concat(
                            d.as_str(),
                        ).concat(")"),
                    ),
                );
            },
        };
        let name = match &fields.name {
            Some(n) => n.clone(),
            None => String::from_str("unnamed-agent"),
        };
        let tick: i64 = match fields.tick_interval_secs {
            Some(t) => t,
            None => 60,
        };
        let mut connectors: Vec<String> = Vec::new();
        match &fields.connectors {
            Some(xs) => {
                let ghost ov = opt_texts(xs@);
                let mut i: usize = 0;
                while i < xs.len()
                    invariant
                        i <= xs@.len(),
                        ov == opt_texts(xs@),
                        connectors@.map_values(|s: String| s@) == present_strings(ov.take(i as int)),
                    decreases xs.len() - i,
                {
                    proof {
                        assert(ov.take(i + 1).drop_last() =~= ov.take(i as int));
                        assert(ov.take(i + 1).last() == opt_text(xs@[i as int]));
                    }
                    match &xs[i] {
                        Some(c) => {
                            let ghost before = connectors@;
                            connectors.push(c.clone());
                            proof {
                                assert(connectors@.map_values(|s: String| s@) =~= before.map_values(
                                    |s: String| s@,
                                ) + seq![c@]);
                            }
                        },
                        None => {},
                    }
                    i = i + 1;
                }
                assert(ov.take(ov.len() as int) =~= ov);
            },
            None => {
                assert(connectors@.map_values(|s: String| s@) =~= Seq::<Seq<char>>::empty());
            },
        }
        let grid_levels = match fields.grid_levels {
            Some(g) => Some(g as u32),
            None => None,
        };
        let leverage = match fields.leverage {
            Some(l) => Some(l as u32),
            None => None,
        };
        Ok(
            ResolvedConfig {
                name,
                tick_interval_secs: tick as u64,
                connectors,
                trading_pair,
                grid_levels,
                leverage,
            },
        )
    }

    /// Splits an agent file into its YAML frontmatter and its Markdown body.
    pub fn split_frontmatter(content: &str) -> (r: Result<(String, String), FerrumError>)
        ensures
            match r {
                Ok((f, b)) => frontmatter_parts(content@) == Some((f@, b@)),
                Err(e) => frontmatter_parts(content@) is None && (e matches FerrumError::ConfigError(
                    m,
                ) && m@ == (if "---"@.is_prefix_of(trim(content@)) {
                    "Unclosed YAML frontmatter"@
                } else {
                    "Missing YAML frontmatter"@
                })),
            },
    {
        proof {
            reveal_strlit("---");
        }
        let t = trim_chars(&str_chars(content));
        let fence = str_chars("---");
        if !starts_with(&t, &fence) {
            return Err(FerrumError::ConfigError(String::from_str("Missing YAML frontmatter")));
        }
        let rest = slice_chars(&t, 3, t.len());
        assert(rest@ =~= t@.skip(3));
        match find_chars(&rest, &fence) {
            Some(e) => {
                assert(e + 3 <= rest.len());
                let front = slice_chars(&rest, 0, e);
                let body = slice_chars(&rest, e + 3, rest.len());
                assert(front@ =~= rest@.take(e as int));
                assert(body@ =~= rest@.skip(e + 3));
                Ok((chars_to_string(&front), chars_to_string(&body)))
            },
            None => Err(FerrumError::ConfigError(String::from_str("Unclosed YAML frontmatter"))),
        }
    }

    /// Reads the goal and the rules from the Markdown body of an agent file.
    pub fn parse_markdown_body(body: &str) -> (r: (String, Vec<String>))
        ensures
            r.0@ == scan_lines(lines(body@)).goal,
            r.1@.map_values(|s: String| s@) == scan_lines(lines(body@)).rules,
    {
        let ls = lines_of(&str_chars(body));
        let goal_heading = str_chars("## Goal");
        let rules_heading = str_chars("## Rules");
        let strategy_heading = str_chars("## Strategy");
        let strategy_rules_heading = str_chars("## Strategy Rules");
        let heading = str_chars("## ");
        let dash = str_chars("- ");
        let star = str_chars("* ");
        let mut goal: Vec<char> = Vec::new();
        let mut rules: Vec<String> = Vec::new();
        let mut in_goal = false;
        let mut in_rules = false;
        let mut i: usize = 0;
        while i < ls.len()
            invariant
                i <= ls@.len(),
                goal_heading@ == "## Goal"@,
                rules_heading@ == "## Rules"@,
                strategy_heading@ == "## Strategy"@,
                strategy_rules_heading@ == "## Strategy Rules"@,
                heading@ == "## "@,
                dash@ == "- "@,
                star@ == "* "@,
                ({
                    let st = scan_lines(views(ls@).take(i as int));
                    &&& st.goal == goal@
                    &&& st.rules == rules@.map_values(|s: String| s@)
                    &&& st.in_goal == in_goal
                    &&& st.in_rules == in_rules
                }),
            decreases ls.len() - i,
        {
            proof {
                let vs = views(ls@);
                assert(vs.take(i + 1).drop_last() =~= vs.take(i as int));
                assert(vs.take(i + 1).last() == ls@[i as int]@);
            }
            let t = trim_chars(&ls[i]);
            if t.len() == 0 {
            } else if chars_eq(&t, &goal_heading) {
                in_goal = true;
                in_rules = false;
            } else if chars_eq(&t, &rules_heading) || chars_eq(&t, &strategy_heading) || chars_eq(
                &t,
                &strategy_rules_heading,
            ) {
                in_goal = false;
                in_rules = true;
            } else if starts_with(&t, &heading) {
                in_goal = false;
                in_rules = false;
            } else if in_goal && goal.len() == 0 {
                goal = t;
                in_goal = false;
            } else if in_rules && (starts_with(&t, &dash) || starts_with(&t, &star)) {
                let rule = strip_all_prefix_chars(&strip_all_prefix_chars(&t, &dash), &star);
                if rule.len() > 0 {
                    let ghost before = rules@;
                    rules.push(chars_to_string(&rule));
                    proof {
                        assert(rules@.map_values(|s: String| s@) =~= before.map_values(
                            |s: String| s@,
                        ).push(rule@));
                    }
                }
            }
            i = i + 1;
        }
        assert(views(ls@).take(ls@.len() as int) =~= views(ls@));
        (chars_to_string(&goal), rules)
    }
}

} // verus!
