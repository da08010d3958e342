//! Exact expected values for the fixed-point kernel and the stage
//! functions it drives.

use econsim::catalog::{validate_orders, Catalog, Industry, IndustryMap, OrderGroup, OrderItem};
use econsim::economy::{compute_demand, compute_supply, Economy, MIN_VALUE};
use econsim::fixed::{fx_add, fx_div, fx_mul, fx_pow11, fx_pow2, fx_smooth, fx_sub, CAP, SCALE};
use econsim::goods::{Good, GoodMap, Labor, LaborMap};
use econsim::production::produce;
use econsim::values::{price_one, value_update_one};

#[test]
fn fixed_point_products_and_quotients() {
    // 2.5 * 2.0 == 5.0
    assert_eq!(fx_mul(2_500_000, 2_000_000), 5_000_000);
    // (-2.5) * 2.0 == -5.0
    assert_eq!(fx_mul(-2_500_000, 2_000_000), -5_000_000);
    // 3.0 / 2.0 == 1.5
    assert_eq!(fx_div(3 * SCALE, 2 * SCALE), 1_500_000);
    // Saturation instead of overflow.
    assert_eq!(fx_mul(CAP, CAP), CAP);
    assert_eq!(fx_add(CAP, CAP), CAP);
    assert_eq!(fx_sub(-CAP, CAP), -CAP);
}

#[test]
fn power_of_two_interpolation() {
    assert_eq!(fx_pow2(0), SCALE);
    assert_eq!(fx_pow2(SCALE), 2 * SCALE);
    assert_eq!(fx_pow2(3 * SCALE), 8 * SCALE);
    assert_eq!(fx_pow2(-SCALE), SCALE / 2);
    // Linear interpolation between neighbouring powers: 2^0.5 ~ 1.5.
    assert_eq!(fx_pow2(SCALE / 2), 1_500_000);
    assert_eq!(fx_pow2(40 * SCALE), CAP);
    assert_eq!(fx_pow2(-45 * SCALE), 0);
}

#[test]
fn superlinear_workforce_boost() {
    // One worker: 1^1.1 == 1.
    assert_eq!(fx_pow11(SCALE), SCALE);
    assert_eq!(fx_pow11(0), 0);
    // Four workers: log2 is exactly 2, so 4 * 2^0.2 ~ 4.8 under the
    // linear fraction interpolation.
    assert_eq!(fx_pow11(4 * SCALE), 4_800_000);
    // Superlinearity: doubling the workforce more than doubles output.
    let one = fx_pow11(10 * SCALE);
    let two = fx_pow11(20 * SCALE);
    assert!(two > 2 * one);
}

#[test]
fn value_update_exact_cases() {
    // Zero demand: explicitly unpriced.
    assert_eq!(value_update_one(Some(SCALE), 5 * SCALE, 0), None);
    // Surplus equal to demand: neutral signal, adopted at once when no
    // previous value existed.
    assert_eq!(value_update_one(None, 7 * SCALE, 7 * SCALE), Some(SCALE));
    // A deep shortage blows the raw signal out of the meaningful band:
    // 2^(1 + 20) is far above 1000, so the good is unpriced.
    assert_eq!(value_update_one(Some(SCALE), -20 * SCALE, SCALE), None);
    // Smoothing: previous 0.5, raw neutral 1.0 -> 0.8*0.5 + 0.2*1.0 = 0.6.
    assert_eq!(
        value_update_one(Some(500_000), 3 * SCALE, 3 * SCALE),
        Some(600_000)
    );
}

#[test]
fn value_update_converges_to_neutral() {
    // With surplus tracking demand, repeated rationalisation drives the
    // value to within a few micro-units of 1.0, from either side.
    let d = 10 * SCALE;
    let mut v: i64 = MIN_VALUE + 1;
    for _ in 0..120 {
        let prev = v;
        v = value_update_one(Some(v), d, d).unwrap();
        assert!((v - SCALE).abs() <= (prev - SCALE).abs());
    }
    assert!((v - SCALE).abs() <= 4);
    let mut w: i64 = 900_000_000;
    for _ in 0..120 {
        let prev = w;
        w = value_update_one(Some(w), d, d).unwrap();
        assert!((w - SCALE).abs() <= (prev - SCALE).abs());
    }
    assert!((w - SCALE).abs() <= 4);
}

#[test]
fn price_is_demand_over_availability() {
    // demand 2.0 against supply 1.0 + stock 1.0 -> price 1.0.
    assert_eq!(price_one(2 * SCALE, SCALE, SCALE), SCALE);
    // Nothing available, nothing demanded -> zero.
    assert_eq!(price_one(0, 0, 0), 0);
    // Nothing available but demand -> saturated scarcity price.
    assert_eq!(price_one(SCALE, 0, 0), CAP);
}

fn two_group_catalog() -> Catalog {
    Catalog {
        orders: vec![
            OrderGroup {
                labor: None,
                inputs: vec![OrderItem { good: Good::Food, amount: SCALE / 2 }],
            },
            OrderGroup {
                labor: Some(Labor::Farmer),
                inputs: vec![OrderItem { good: Good::Wood, amount: SCALE / 10 }],
            },
        ],
        industries: IndustryMap {
            farmer: Industry { output: Good::Food, rate: SCALE },
            lumberjack: Industry { output: Good::Wood, rate: 0 },
            miner: Industry { output: Good::Ore, rate: 0 },
        },
    }
}

#[test]
fn demand_aggregates_orders_by_group_scale() {
    let catalog = two_group_catalog();
    let labors = LaborMap { farmer: SCALE / 2, lumberjack: 0, miner: 0 };
    let d = compute_demand(&catalog, &labors, 100 * SCALE);
    // Base upkeep: 0.5 food per head for 100 heads.
    assert_eq!(d.food, 50 * SCALE);
    // Farming inputs: 0.1 wood per unit, half the population farming.
    assert_eq!(d.wood, 5 * SCALE);
    assert_eq!(d.ore, 0);
}

#[test]
fn supply_uses_last_tick_yields() {
    let mut econ = Economy::new(
        10 * SCALE,
        GoodMap { food: 0, wood: 0, ore: 0 },
        LaborMap { farmer: SCALE / 2, lumberjack: 0, miner: 0 },
    );
    econ.yields = LaborMap { farmer: 2 * SCALE, lumberjack: 0, miner: 0 };
    let s = compute_supply(&econ, &two_group_catalog().industries);
    // 2.0 yield per worker * 0.5 allocation * 10 heads.
    assert_eq!(s.food, 10 * SCALE);
    assert_eq!(s.wood, 0);
}

#[test]
fn production_is_capped_by_the_scarcest_input() {
    let catalog = Catalog {
        orders: vec![OrderGroup {
            labor: Some(Labor::Farmer),
            inputs: vec![OrderItem { good: Good::Wood, amount: SCALE }],
        }],
        industries: two_group_catalog().industries,
    };
    let labors = LaborMap { farmer: SCALE, lumberjack: 0, miner: 0 };
    let mut econ = Economy::new(
        10 * SCALE,
        GoodMap { food: 0, wood: 5 * SCALE, ore: 0 },
        labors,
    );
    let demand = compute_demand(&catalog, &econ.labors, econ.pop);
    // Ten farmers each demand one wood; only five on hand.
    assert_eq!(demand.wood, 10 * SCALE);
    produce(&mut econ, &catalog, &demand);
    // Bottleneck ratio 0.5: all five wood consumed...
    assert_eq!(econ.stocks.wood, 0);
    // ...and productivity and yield record the realized ratio.
    assert_eq!(econ.productivity.farmer, SCALE / 2);
    assert_eq!(econ.yields.farmer, SCALE / 2);
    // Output: 0.5 yield/worker * 10^1.1 workers, added to food.
    assert_eq!(econ.stocks.food, fx_mul(SCALE / 2, fx_pow11(10 * SCALE)));
}

#[test]
fn validate_orders_accepts_and_rejects() {
    let good = two_group_catalog();
    assert!(validate_orders(&good).is_ok());
    let mut bad = two_group_catalog();
    bad.orders[1].inputs.clear();
    assert_eq!(
        validate_orders(&bad),
        Err(econsim::catalog::EconError::EmptyOrders { labor: Some(Labor::Farmer) })
    );
}

#[test]
fn smoothing_is_four_fifths_old_one_fifth_new() {
    assert_eq!(fx_smooth(SCALE, 0), 800_000);
    assert_eq!(fx_smooth(0, SCALE), 200_000);
    assert_eq!(fx_smooth(SCALE, SCALE), SCALE);
}
