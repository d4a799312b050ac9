use rsta::series::{align_tails, chained_min_len, parallel_min_len, validate_macd_periods};
use rsta::window::sliding_windows;
use rsta::IndicatorError;

#[test]
fn align_tails_keeps_common_suffix() {
    let fast = vec![1, 2, 3, 4, 5, 6];
    let slow = vec![10, 20, 30];
    let (a, b) = align_tails(&fast, &slow);
    assert_eq!(a, vec![4, 5, 6]);
    assert_eq!(b, vec![10, 20, 30]);
    let (b2, a2) = align_tails(&slow, &fast);
    assert_eq!(a2, vec![4, 5, 6]);
    assert_eq!(b2, vec![10, 20, 30]);
}

#[test]
fn align_tails_with_empty_and_equal() {
    let x = vec![1.5, 2.5];
    let empty: Vec<f64> = Vec::new();
    let (a, b) = align_tails(&x, &empty);
    assert!(a.is_empty() && b.is_empty());
    let (a, b) = align_tails(&x, &x);
    assert_eq!(a, x);
    assert_eq!(b, x);
}

#[test]
fn macd_fast_not_below_slow_is_invalid() {
    match validate_macd_periods(26, 12, 9) {
        Err(IndicatorError::InvalidParameter(msg)) => {
            assert_eq!(msg, "Slow period must be greater than fast period");
        }
        _ => panic!("Expected InvalidParameter error"),
    }
    assert!(matches!(
        validate_macd_periods(12, 12, 9),
        Err(IndicatorError::InvalidParameter(_))
    ));
    assert!(matches!(
        validate_macd_periods(12, 26, 0),
        Err(IndicatorError::InvalidParameter(_))
    ));
    assert!(validate_macd_periods(12, 26, 9).is_ok());
}

#[test]
fn composite_minimum_lengths() {
    assert_eq!(chained_min_len(26, 9), 34);
    assert_eq!(chained_min_len(14, 3), 16);
    assert_eq!(chained_min_len(1, 1), 1);
    assert_eq!(chained_min_len(usize::MAX, 2), usize::MAX);
    assert_eq!(parallel_min_len(20, 10), 20);
    assert_eq!(parallel_min_len(10, 20), 20);
}

#[test]
fn chained_stages_yield_chained_min_len_outputs() {
    let data: Vec<i64> = (0..20).collect();
    for (p, q) in [(3usize, 2usize), (5, 5), (1, 4), (14, 3)] {
        let first: Vec<i64> = sliding_windows(&data, p)
            .unwrap()
            .iter()
            .map(|w| w.iter().sum())
            .collect();
        let second = sliding_windows(&first, q).unwrap();
        assert_eq!(second.len(), data.len() - chained_min_len(p, q) + 1);
    }
}

#[test]
fn parallel_stages_align_to_parallel_min_len_outputs() {
    let data: Vec<i64> = (0..12).collect();
    // each stage reports the sample its window ends with
    let a: Vec<i64> = sliding_windows(&data, 3).unwrap().iter().map(|w| w[2]).collect();
    let b: Vec<i64> = sliding_windows(&data, 7).unwrap().iter().map(|w| w[6]).collect();
    let (a, b) = align_tails(&a, &b);
    assert_eq!(a.len(), data.len() - parallel_min_len(3, 7) + 1);
    assert_eq!(a, b);
}
