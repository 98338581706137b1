use mithaq::common::{slot_of, text_matches, texts_equal};
use mithaq::liquidity::{
    pool_state, FeesRecycled, LiquidityEngine, LiquidityPoolState, LiquidityWithdrawn, PoolEvent,
    PoolRebalanced, RecycledBatch,
};

fn engine(total_pooled: i128, utilization: i128) -> LiquidityEngine {
    LiquidityEngine {
        metrics: Some(LiquidityPoolState {
            total_pooled,
            total_recycled_fees: 0,
            active_contributors: 2,
            pool_utilization: utilization,
            last_updated: 0,
        }),
        recycled: None,
    }
}

#[test]
fn default_pool_is_neutral() {
    let p = pool_state(None, 77);
    assert_eq!(p.total_pooled, 0);
    assert_eq!(p.pool_utilization, 50);
    assert_eq!(p.last_updated, 77);
}

#[test]
fn contribution_is_thirty_percent_rounded_toward_zero() {
    let (e, c, ev) = engine(0, 50).contribute_to_pool(9, 1001, Some(2000), 5).unwrap();
    assert_eq!(c, 300);
    let p = e.metrics.unwrap();
    assert_eq!(p.total_pooled, 300);
    assert_eq!(p.active_contributors, 3);
    assert_eq!(p.pool_utilization, 15);
    assert!(ev.is_some());
    // too small to pool anything: nothing changes
    let (e2, c2, ev2) = engine(10, 50).contribute_to_pool(9, 3, Some(2000), 5).unwrap();
    assert_eq!((c2, ev2), (0, None));
    assert_eq!(e2, engine(10, 50));
    // an escrow total out of range refuses the contribution
    assert_eq!(engine(0, 50).contribute_to_pool(9, 1000, None, 5), None);
    assert_eq!(engine(0, 50).contribute_to_pool(9, i128::MAX, Some(1), 5), None);
}

#[test]
fn withdrawal_floors_at_zero() {
    let (e, ev) = engine(100, 50).withdraw_from_pool(4, 250, Some(0), 8).unwrap();
    let p = e.metrics.unwrap();
    assert_eq!(p.total_pooled, 0);
    assert_eq!(p.active_contributors, 1);
    assert_eq!(p.pool_utilization, 50);
    assert_eq!(ev, Some(PoolEvent::Withdrawn(LiquidityWithdrawn { contract_id: 4, amount: 250, total_pooled: 0 })));
    let (same, none) = engine(100, 50).withdraw_from_pool(4, 0, Some(0), 8).unwrap();
    assert_eq!((same, none), (engine(100, 50), None));
}

#[test]
fn recycling_holds_fees_for_a_week() {
    let (e, ev) = engine(100, 50).recycle_fees(40, Some(400), 10).unwrap();
    let p = e.metrics.unwrap();
    assert_eq!(p.total_pooled, 140);
    assert_eq!(p.total_recycled_fees, 40);
    assert_eq!(p.pool_utilization, 35);
    assert_eq!(e.recycled, Some(RecycledBatch { amount: 40, recycle_end: 10 + 604_800 }));
    assert_eq!(ev, Some(PoolEvent::Recycled(FeesRecycled { amount: 40, recycle_end: 10 + 604_800 })));
    // not yet: nothing is released
    assert_eq!(e.release_recycled_fees(Some(400), 604_809), Some((e, 0)));
    // from the end of the period the whole batch leaves
    let (e2, released) = e.release_recycled_fees(Some(400), 604_810).unwrap();
    assert_eq!(released, 40);
    assert_eq!(e2.recycled, None);
    assert_eq!(e2.metrics.unwrap().total_pooled, 100);
    assert_eq!(e2.metrics.unwrap().total_recycled_fees, 0);
    assert_eq!(e2.metrics.unwrap().pool_utilization, 25);
}

#[test]
fn settlement_reports_rebalancing() {
    // 10 pooled against 1000 escrowed: utilization falls to 1 and calls for a surcharge
    let (e, events) = engine(10, 50).process_hybrid_liquidity(1, false, 0, 0, Some(1000), 3).unwrap();
    assert_eq!(
        events,
        vec![PoolEvent::Rebalanced(PoolRebalanced { old_utilization: 50, new_utilization: 1, fee_adjustment: 5 })]
    );
    assert_eq!(e.metrics.unwrap().pool_utilization, 1);
    // 900 pooled against 1000 escrowed: a discount
    let (_, events) = engine(900, 50).process_hybrid_liquidity(1, false, 0, 0, Some(1000), 3).unwrap();
    assert_eq!(
        events,
        vec![PoolEvent::Rebalanced(PoolRebalanced { old_utilization: 50, new_utilization: 90, fee_adjustment: -5 })]
    );
    // an empty pool is neutral and needs no rebalancing
    let (e, events) = engine(0, 50).process_hybrid_liquidity(1, false, 0, 0, None, 3).unwrap();
    assert!(events.is_empty());
    assert_eq!(e, engine(0, 50));
}

#[test]
fn text_and_slot_helpers() {
    assert!(texts_equal(&b"abc".to_vec(), &b"abc".to_vec()));
    assert!(!texts_equal(&b"abc".to_vec(), &b"abd".to_vec()));
    assert!(!texts_equal(&b"abc".to_vec(), &b"ab".to_vec()));
    assert!(text_matches(&b"YES".to_vec(), b"YES"));
    assert_eq!(slot_of(1, 2), (1u128 << 64) + 2);
    assert_ne!(slot_of(1, 2), slot_of(2, 1));
}
