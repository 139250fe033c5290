use batch_swap::asset::{AssetId, TradingPair};
use batch_swap::price::Price;

#[test]
fn trading_pair_is_canonical() {
    let low = AssetId { hi: 1, lo: 9 };
    let high = AssetId { hi: 2, lo: 0 };
    for pair in [TradingPair::new(low, high), TradingPair::new(high, low)] {
        assert_eq!(pair.asset_1(), low);
        assert_eq!(pair.asset_2(), high);
    }
    assert_eq!(TradingPair::new(low, high), TradingPair::new(high, low));
    let same = TradingPair::new(low, low);
    assert_eq!((same.asset_1(), same.asset_2()), (low, low));
}

#[test]
fn asset_order_reads_the_upper_half_first() {
    let a = AssetId { hi: 0, lo: u128::MAX };
    let b = AssetId { hi: 1, lo: 0 };
    assert!(a.is_before(&b));
    assert!(!b.is_before(&a));
    assert!(!a.is_before(&a));
    assert!(AssetId { hi: 1, lo: 0 }.is_before(&AssetId { hi: 1, lo: 1 }));
}

#[test]
fn price_order_reads_the_whole_part_first() {
    let p = Price { integral: 2, fractional: 0 };
    assert!(p.at_least(&p));
    assert!(p.at_least(&Price { integral: 1, fractional: u128::MAX }));
    assert!(!p.at_least(&Price { integral: 2, fractional: 1 }));
    assert!(Price { integral: 2, fractional: 1 }.at_least(&p));
    assert!(!Price { integral: 0, fractional: u128::MAX }.at_least(&Price { integral: 1, fractional: 0 }));
}
