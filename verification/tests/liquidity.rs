use exponent_amm::math::{add_liquidity, lp_proportion, lp_to_sy, rm_liquidity};

#[test]
fn test_add_remove_liquidity_roundtrip() {
    let market_start_total_lp = 1000;
    let market_start_total_sy = 1000;
    let market_start_total_pt = 1000;

    let add_result = add_liquidity(
        100,
        100,
        market_start_total_lp,
        market_start_total_sy,
        market_start_total_pt,
    );
    let rm_result = rm_liquidity(
        add_result.lp_tokens_out,
        market_start_total_lp + add_result.lp_tokens_out,
        market_start_total_sy + add_result.sy_in,
        market_start_total_pt + add_result.pt_in,
    );

    assert_eq!(rm_result.sy_out, add_result.sy_in);
    assert_eq!(rm_result.pt_out, add_result.pt_in);
}

#[test]
fn roundtrip_never_returns_more_than_deposited() {
    let cases: [(u64, u64, u64, u64, u64); 4] = [
        (7, 13, 1000, 333, 777),
        (50, 400, 1000, 500, 2000),
        (1, 1, 3, 7, 11),
        (123_456, 654_321, 999_999, 1_000_003, 2_000_017),
    ];
    for (sy, pt, lp, total_sy, total_pt) in cases {
        let add = add_liquidity(sy, pt, lp, total_sy, total_pt);
        let rm = rm_liquidity(
            add.lp_tokens_out,
            lp + add.lp_tokens_out,
            total_sy + add.sy_in,
            total_pt + add.pt_in,
        );
        assert!(rm.sy_out <= add.sy_in);
        assert!(rm.pt_out <= add.pt_in);
        assert!(add.sy_in <= sy && add.pt_in <= pt);
        assert!(add.sy_in == sy || add.pt_in == pt);
    }
}

#[test]
fn add_liquidity_even() {
    let add_result = add_liquidity(100, 100, 1000, 1000, 1000);
    assert_eq!(add_result.lp_tokens_out, 100);
    assert_eq!(add_result.sy_in, add_result.pt_in);
}

#[test]
fn test_add_liquidity_uneven() {
    let add_result = add_liquidity(100, 200, 1000, 1000, 1000);
    assert_eq!(add_result.lp_tokens_out, 100);
    assert_eq!(add_result.sy_in, 100);
    assert_eq!(add_result.pt_in, 100);
}

#[test]
fn test_add_liquidity_unbalanced_pool() {
    let add_result = add_liquidity(50, 200, 1000, 500, 2000);
    assert_eq!(add_result.lp_tokens_out, 100);
    assert_eq!(add_result.sy_in, 50);
    assert_eq!(add_result.pt_in, 200);

    // Try adding way too much PT
    let add_result = add_liquidity(50, 400, 1000, 500, 2000);
    assert_eq!(add_result.lp_tokens_out, 100);
    assert_eq!(add_result.sy_in, 50);
    // PT will be reduced to balance the SY
    assert_eq!(add_result.pt_in, 200);
}

#[test]
fn add_liquidity_rounds_matched_side_up() {
    // lp from pt = 1000 * 10 / 3000 = 3.33.., the pt side mints less
    // sy matched = floor(700 * 10 / 3000 + 1 - 1/1000) = floor(3.332..) = 3
    let r = add_liquidity(100, 10, 1000, 700, 3000);
    assert_eq!(r.lp_tokens_out, 3);
    assert_eq!(r.pt_in, 10);
    assert_eq!(r.sy_in, 3);
    // an exact share is not rounded up: 600 * 10 / 3000 = 2
    let r = add_liquidity(100, 10, 1000, 600, 3000);
    assert_eq!(r.sy_in, 2);
    // 601 * 10 / 3000 = 2.003.. goes up to 3
    let r = add_liquidity(100, 10, 1000, 601, 3000);
    assert_eq!(r.sy_in, 3);
}

#[test]
fn add_liquidity_saturates_lp_amount() {
    let r = add_liquidity(u64::MAX, u64::MAX, u64::MAX, 1, 1);
    assert_eq!(r.lp_tokens_out, u64::MAX);
    assert_eq!(r.sy_in, u64::MAX);
    assert_eq!(r.pt_in, u64::MAX);
}

#[test]
fn test_rm_liquidity_even_pool() {
    let r = rm_liquidity(100, 1000, 1000, 1000);
    assert_eq!(r.sy_out, 100);
    assert_eq!(r.pt_out, 100);
}

#[test]
fn test_rm_liquidity_uneven_pool() {
    let r = rm_liquidity(100, 1000, 2000, 500);
    assert_eq!(r.sy_out, 200);
    assert_eq!(r.pt_out, 50);
}

#[test]
fn test_rm_liquidity_partial() {
    let r = rm_liquidity(250, 1000, 1000, 1000);
    assert_eq!(r.sy_out, 250);
    assert_eq!(r.pt_out, 250);
}

#[test]
fn test_rm_liquidity_all() {
    let r = rm_liquidity(1000, 1000, 1000, 1000);
    assert_eq!(r.sy_out, 1000);
    assert_eq!(r.pt_out, 1000);
}

#[test]
fn test_rm_liquidity_large_numbers() {
    let r = rm_liquidity(100_000_000, 1_000_000_000, 2_000_000_000, 3_000_000_000);
    assert_eq!(r.sy_out, 200_000_000);
    assert_eq!(r.pt_out, 300_000_000);
}

#[test]
fn test_rm_liquidity_small_amount() {
    let r = rm_liquidity(1, 1_000_000, 1_000_000, 1_000_000);
    assert_eq!(r.sy_out, 1);
    assert_eq!(r.pt_out, 1);
}

#[test]
fn rm_liquidity_rounds_down() {
    let r = rm_liquidity(1, 3, 10, 11);
    assert_eq!(r.sy_out, 3);
    assert_eq!(r.pt_out, 3);
}

#[test]
fn rm_liquidity_from_empty_pool() {
    let r = rm_liquidity(0, 0, 10, 11);
    assert_eq!(r.sy_out, 0);
    assert_eq!(r.pt_out, 0);
}

#[test]
fn rm_liquidity_is_monotone() {
    let mut last = 0;
    for lp in 0..=97u64 {
        let r = rm_liquidity(lp, 97, 1234, 5);
        assert!(r.sy_out >= last);
        assert!(r.sy_out <= 1234 && r.pt_out <= 5);
        last = r.sy_out;
    }
    assert_eq!(last, 1234);
}

#[test]
fn lp_to_sy_is_sy_share() {
    assert_eq!(lp_to_sy(250, 1000, 4000, 7), 1000);
    assert_eq!(lp_to_sy(1, 3, 10, 7), 3);
}

#[test]
fn lp_proportion_shares() {
    let p = lp_proportion(250, 1000, 3000, 1000);
    assert_eq!(p.pt, 250);
    assert_eq!(p.sy, 750);
    let p = lp_proportion(u64::MAX, u64::MAX, 5, 1);
    assert_eq!(p.pt, u64::MAX);
    assert_eq!(p.sy, u64::MAX);
}
