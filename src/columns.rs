//! The column layout of a converted tick file: each output column, in
//! order, and the input column it is taken from.
use vstd::prelude::*;
use vstd::string::*;

verus! {

/// Where an output column comes from.
pub enum ColumnSource {
    /// The date part of this timestamp column.
    Date(String),
    /// The time-of-day part of this timestamp column.
    Time(String),
    /// This column, which the input must have.
    Required(String),
    /// This column when the input has it; otherwise a column of zeros.
    Optional(String),
}

/// A `ColumnSource` with its names as characters.
pub enum SourceModel {
    Date(Seq<char>),
    Time(Seq<char>),
    Required(Seq<char>),
    Optional(Seq<char>),
}

impl View for ColumnSource {
    type V = SourceModel;

    open spec fn view(&self) -> SourceModel {
        match self {
            ColumnSource::Date(c) => SourceModel::Date(c@),
            ColumnSource::Time(c) => SourceModel::Time(c@),
            ColumnSource::Required(c) => SourceModel::Required(c@),
            ColumnSource::Optional(c) => SourceModel::Optional(c@),
        }
    }
}

/// One output column and its source.
pub struct ColumnRule {
    pub output: String,
    pub source: ColumnSource,
}

impl View for ColumnRule {
    type V = (Seq<char>, SourceModel);

    open spec fn view(&self) -> (Seq<char>, SourceModel) {
        (self.output@, self.source@)
    }
}

/// The input column of instrument `name` with this field.
pub open spec fn field(name: Seq<char>, suffix: &str) -> Seq<char> {
    name + suffix@
}

pub open spec fn req(out: &str, name: Seq<char>, suffix: &str) -> (Seq<char>, SourceModel) {
    (out@, SourceModel::Required(field(name, suffix)))
}

pub open spec fn opt(out: &str, name: Seq<char>, suffix: &str) -> (Seq<char>, SourceModel) {
    (out@, SourceModel::Optional(field(name, suffix)))
}

/// The output columns of instrument `name`, in order, with their sources.
pub open spec fn column_plan_spec(name: Seq<char>) -> Seq<(Seq<char>, SourceModel)> {
    seq![
        ("date"@, SourceModel::Date("datetime"@)),
        ("time"@, SourceModel::Time("datetime"@)),
        req("volume", name, ".volume"),
        req("open_interest", name, ".open_interest"),
        req("turnover", name, ".amount"),
        req("last_price", name, ".last_price"),
        opt("ask_price_1", name, ".ask_price1"),
        opt("ask_price_2", name, ".ask_price2"),
        opt("ask_price_3", name, ".ask_price3"),
        opt("ask_price_4", name, ".ask_price4"),
        opt("ask_price_5", name, ".ask_price5"),
        req("ask_volume_1", name, ".ask_volume1"),
        opt("ask_volume_2", name, ".ask_volume2"),
        opt("ask_volume_3", name, ".ask_volume3"),
        opt("ask_volume_4", name, ".ask_volume4"),
        opt("ask_volume_5", name, ".ask_volume5"),
        opt("bid_price_1", name, ".bid_price1"),
        opt("bid_price_2", name, ".bid_price2"),
        opt("bid_price_3", name, ".bid_price3"),
        opt("bid_price_4", name, ".bid_price4"),
        opt("bid_price_5", name, ".bid_price5"),
        opt("bid_volume_1", name, ".bid_volume1"),
        opt("bid_volume_2", name, ".bid_volume2"),
        opt("bid_volume_3", name, ".bid_volume3"),
        opt("bid_volume_4", name, ".bid_volume4"),
        opt("bid_volume_5", name, ".bid_volume5"),
    ]
}

pub open spec fn rule_views(v: Seq<ColumnRule>) -> Seq<(Seq<char>, SourceModel)> {
    v.map_values(|r: ColumnRule| r@)
}

fn push_rule(plan: &mut Vec<ColumnRule>, out: &str, source: ColumnSource)
    ensures
        rule_views(final(plan)@) == rule_views(old(plan)@).push((out@, source@)),
{
    plan.push(ColumnRule { output: String::from_str(out), source });
    assert(rule_views(final(plan)@) =~= rule_views(old(plan)@).push((out@, source@)));
}

fn push_required(plan: &mut Vec<ColumnRule>, out: &str, name: &str, suffix: &str)
    ensures
        rule_views(final(plan)@) == rule_views(old(plan)@).push(req(out, name@, suffix)),
{
    push_rule(plan, out, ColumnSource::Required(String::from_str(name).concat(suffix)));
}

fn push_optional(plan: &mut Vec<ColumnRule>, out: &str, name: &str, suffix: &str)
    ensures
        rule_views(final(plan)@) == rule_views(old(plan)@).push(opt(out, name@, suffix)),
{
    push_rule(plan, out, ColumnSource::Optional(String::from_str(name).concat(suffix)));
}

/// The output columns of a converted file of instrument `name`, in order,
/// each with the input column it is taken from.
pub fn column_plan(name: &str) -> (r: Vec<ColumnRule>)
    ensures
        rule_views(r@) == column_plan_spec(name@),
{
    let mut p: Vec<ColumnRule> = Vec::new();
    push_rule(&mut p, "date", ColumnSource::Date(String::from_str("datetime")));
    push_rule(&mut p, "time", ColumnSource::Time(String::from_str("datetime")));
    push_required(&mut p, "volume", name, ".volume");
    push_required(&mut p, "open_interest", name, ".open_interest");
    push_required(&mut p, "turnover", name, ".amount");
    push_required(&mut p, "last_price", name, ".last_price");
    push_optional(&mut p, "ask_price_1", name, ".ask_price1");
    push_optional(&mut p, "ask_price_2", name, ".ask_price2");
    push_optional(&mut p, "ask_price_3", name, ".ask_price3");
    push_optional(&mut p, "ask_price_4", name, ".ask_price4");
    push_optional(&mut p, "ask_price_5", name, ".ask_price5");
    push_required(&mut p, "ask_volume_1", name, ".ask_volume1");
    push_optional(&mut p, "ask_volume_2", name, ".ask_volume2");
    push_optional(&mut p, "ask_volume_3", name, ".ask_volume3");
    push_optional(&mut p, "ask_volume_4", name, ".ask_volume4");
    push_optional(&mut p, "ask_volume_5", name, ".ask_volume5");
    push_optional(&mut p, "bid_price_1", name, ".bid_price1");
    push_optional(&mut p, "bid_price_2", name, ".bid_price2");
    push_optional(&mut p, "bid_price_3", name, ".bid_price3");
    push_optional(&mut p, "bid_price_4", name, ".bid_price4");
    push_optional(&mut p, "bid_price_5", name, ".bid_price5");
    push_optional(&mut p, "bid_volume_1", name, ".bid_volume1");
    push_optional(&mut p, "bid_volume_2", name, ".bid_volume2");
    push_optional(&mut p, "bid_volume_3", name, ".bid_volume3");
    push_optional(&mut p, "bid_volume_4", name, ".bid_volume4");
    push_optional(&mut p, "bid_volume_5", name, ".bid_volume5");
    assert(rule_views(p@) =~= column_plan_spec(name@));
    p
}

} // verus!
