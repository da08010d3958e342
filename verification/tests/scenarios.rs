//! End-to-end scenarios for the settlement-economy tick.

use econsim::catalog::{Catalog, EconError, Industry, IndustryMap, OrderGroup, OrderItem};
use econsim::economy::{Economy, TICK_PERIOD_FX};
use econsim::fixed::SCALE;
use econsim::goods::{Good, GoodMap, LaborMap};
use econsim::tick::tick_site_economy;
use econsim::values::ALLOC_FLOOR;
use econsim::world::{tick, Index};

fn farming_catalog() -> Catalog {
    // One industry: the farmer consumes 0.1 wood per unit of food and
    // produces food at base rate 1.0.
    Catalog {
        orders: vec![OrderGroup {
            labor: Some(econsim::goods::Labor::Farmer),
            inputs: vec![OrderItem { good: Good::Wood, amount: SCALE / 10 }],
        }],
        industries: IndustryMap {
            farmer: Industry { output: Good::Food, rate: SCALE },
            lumberjack: Industry { output: Good::Wood, rate: 0 },
            miner: Industry { output: Good::Ore, rate: 0 },
        },
    }
}

fn farming_economy() -> Economy {
    Economy::new(
        100 * SCALE,
        GoodMap { food: 50 * SCALE, wood: 50 * SCALE, ore: 0 },
        LaborMap { farmer: SCALE, lumberjack: 0, miner: 0 },
    )
}

#[test]
fn scenario_farm_population_grows_and_wood_survives() {
    let catalog = farming_catalog();
    let restock = GoodMap { food: 0, wood: 0, ore: 0 };
    let mut econ = farming_economy();
    let pop0 = econ.pop;
    for _ in 0..100 {
        let r = tick_site_economy(&mut econ, &catalog, &restock, TICK_PERIOD_FX);
        assert!(r.is_ok());
    }
    // Sustained food surplus grows the population...
    assert!(econ.pop > pop0);
    // ...and bottlenecked consumption leaves the wood stock above zero.
    assert!(econ.stocks.wood > 0);
}

#[test]
fn scenario_stocks_never_negative_and_labors_never_zero() {
    let catalog = farming_catalog();
    let restock = GoodMap { food: 0, wood: 0, ore: 0 };
    let mut econ = farming_economy();
    for _ in 0..100 {
        tick_site_economy(&mut econ, &catalog, &restock, TICK_PERIOD_FX).unwrap();
        assert!(econ.stocks.food >= 0);
        assert!(econ.stocks.wood >= 0);
        assert!(econ.stocks.ore >= 0);
        assert!(econ.labors.farmer >= ALLOC_FLOOR && econ.labors.farmer <= SCALE);
        assert!(econ.labors.lumberjack >= ALLOC_FLOOR && econ.labors.lumberjack <= SCALE);
        assert!(econ.labors.miner >= ALLOC_FLOOR && econ.labors.miner <= SCALE);
    }
}

#[test]
fn scenario_empty_order_group_is_rejected_naming_the_industry() {
    let mut catalog = farming_catalog();
    catalog.orders.push(OrderGroup {
        labor: Some(econsim::goods::Labor::Lumberjack),
        inputs: vec![],
    });
    let restock = GoodMap { food: 0, wood: 0, ore: 0 };
    let mut econ = farming_economy();
    let before = econ;
    let r = tick_site_economy(&mut econ, &catalog, &restock, TICK_PERIOD_FX);
    assert_eq!(
        r,
        Err(EconError::EmptyOrders { labor: Some(econsim::goods::Labor::Lumberjack) })
    );
    // A rejected tick leaves the economy untouched.
    assert_eq!(econ, before);
}

#[test]
fn scenario_empty_base_upkeep_group_is_rejected() {
    let mut catalog = farming_catalog();
    catalog.orders.insert(0, OrderGroup { labor: None, inputs: vec![] });
    let restock = GoodMap { food: 0, wood: 0, ore: 0 };
    let mut econ = farming_economy();
    let r = tick_site_economy(&mut econ, &catalog, &restock, TICK_PERIOD_FX);
    assert_eq!(r, Err(EconError::EmptyOrders { labor: None }));
}

#[test]
fn scenario_zero_demand_good_stays_unpriced() {
    // Nothing ever demands ore, so across many ticks its value must stay
    // the explicit unpriced state and never become a garbage number.
    let catalog = farming_catalog();
    let restock = GoodMap { food: 0, wood: 0, ore: 0 };
    let mut econ = farming_economy();
    for _ in 0..20 {
        tick_site_economy(&mut econ, &catalog, &restock, TICK_PERIOD_FX).unwrap();
        assert_eq!(econ.values.ore, None);
    }
}

#[test]
fn zero_dt_tick_changes_nothing() {
    let catalog = farming_catalog();
    let restock = GoodMap { food: 0, wood: 0, ore: 0 };
    let mut econ = farming_economy();
    // Also from a mid-history state, not only the seed.
    tick_site_economy(&mut econ, &catalog, &restock, TICK_PERIOD_FX).unwrap();
    let before = econ;
    tick_site_economy(&mut econ, &catalog, &restock, 0).unwrap();
    // A tick over no elapsed time is a no-op: population, stocks,
    // prices, values and workforce all stay exactly as they were.
    assert_eq!(econ, before);
    assert_eq!(econ.pop, before.pop);
    assert_eq!(econ.stocks, before.stocks);
    assert_eq!(econ.prices, before.prices);
    assert_eq!(econ.labors, before.labors);
}

#[test]
fn replenishment_restores_stocks_after_decay() {
    let catalog = farming_catalog();
    // Hand the tick an external wood restock each tick.
    let restock = GoodMap { food: 0, wood: 20 * SCALE, ore: 0 };
    let mut econ = farming_economy();
    for _ in 0..50 {
        tick_site_economy(&mut econ, &catalog, &restock, TICK_PERIOD_FX).unwrap();
    }
    // With replenished wood the input never runs dry.
    assert!(econ.stocks.wood >= 20 * SCALE);
}

#[test]
fn world_tick_advances_every_site_and_time() {
    let catalog = farming_catalog();
    let restock = GoodMap { food: 0, wood: 0, ore: 0 };
    let mut index = Index::new();
    index.push_site(farming_economy());
    index.push_site(Economy::new(
        10 * SCALE,
        GoodMap { food: SCALE, wood: SCALE, ore: SCALE },
        LaborMap { farmer: SCALE / 2, lumberjack: SCALE / 4, miner: SCALE / 4 },
    ));
    let r = tick(&mut index, &catalog, &restock, TICK_PERIOD_FX);
    assert!(r.is_ok());
    assert_eq!(index.sites.len(), 2);
    assert_eq!(index.time, TICK_PERIOD_FX);
    // Both sites were ticked: the farming site's food stock moved.
    assert!(index.sites[0].economy.pop != 100 * SCALE || index.sites[0].economy.stocks.food != 50 * SCALE);
    let r2 = tick(&mut index, &catalog, &restock, TICK_PERIOD_FX);
    assert!(r2.is_ok());
    assert_eq!(index.time, 2 * TICK_PERIOD_FX);
}

#[test]
fn world_tick_rejects_bad_catalog_untouched() {
    let mut catalog = farming_catalog();
    catalog.orders[0].inputs.clear();
    let restock = GoodMap { food: 0, wood: 0, ore: 0 };
    let mut index = Index::new();
    index.push_site(farming_economy());
    let r = tick(&mut index, &catalog, &restock, TICK_PERIOD_FX);
    assert!(r.is_err());
    assert_eq!(index.time, 0);
    assert_eq!(index.sites[0].economy, farming_economy());
}
