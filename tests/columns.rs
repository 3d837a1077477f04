use tick_pool::columns::{column_plan, ColumnSource};

fn describe(s: &ColumnSource) -> (&'static str, String) {
    match s {
        ColumnSource::Date(c) => ("date", c.clone()),
        ColumnSource::Time(c) => ("time", c.clone()),
        ColumnSource::Required(c) => ("required", c.clone()),
        ColumnSource::Optional(c) => ("optional", c.clone()),
    }
}

#[test]
fn plan_has_all_output_columns_in_order() {
    let plan = column_plan("rb2305");
    let outputs: Vec<&str> = plan.iter().map(|r| r.output.as_str()).collect();
    assert_eq!(
        outputs,
        vec![
            "date", "time", "volume", "open_interest", "turnover", "last_price",
            "ask_price_1", "ask_price_2", "ask_price_3", "ask_price_4", "ask_price_5",
            "ask_volume_1", "ask_volume_2", "ask_volume_3", "ask_volume_4", "ask_volume_5",
            "bid_price_1", "bid_price_2", "bid_price_3", "bid_price_4", "bid_price_5",
            "bid_volume_1", "bid_volume_2", "bid_volume_3", "bid_volume_4", "bid_volume_5",
        ]
    );
}

#[test]
fn plan_sources() {
    let plan = column_plan("rb2305");
    assert_eq!(describe(&plan[0].source), ("date", String::from("datetime")));
    assert_eq!(describe(&plan[1].source), ("time", String::from("datetime")));
    assert_eq!(describe(&plan[2].source), ("required", String::from("rb2305.volume")));
    assert_eq!(describe(&plan[4].source), ("required", String::from("rb2305.amount")));
    assert_eq!(describe(&plan[5].source), ("required", String::from("rb2305.last_price")));
    assert_eq!(describe(&plan[6].source), ("optional", String::from("rb2305.ask_price1")));
    assert_eq!(describe(&plan[11].source), ("required", String::from("rb2305.ask_volume1")));
    assert_eq!(describe(&plan[12].source), ("optional", String::from("rb2305.ask_volume2")));
    assert_eq!(describe(&plan[25].source), ("optional", String::from("rb2305.bid_volume5")));
    let required = plan
        .iter()
        .filter(|r| matches!(r.source, ColumnSource::Required(_)))
        .count();
    assert_eq!(required, 5);
}
