use rsta::window::sliding_windows;
use rsta::{IndicatorError, RollingWindow};

#[test]
fn window_fills_then_evicts_oldest() {
    let mut w: RollingWindow<f64> = RollingWindow::new(3);
    assert!(w.is_empty());
    assert_eq!(w.push(2.0), None);
    assert_eq!(w.push(4.0), None);
    assert!(!w.is_full());
    assert_eq!(w.push(6.0), None);
    assert!(w.is_full());
    assert_eq!(w.push(8.0), Some(2.0));
    assert_eq!(w.to_vec(), vec![4.0, 6.0, 8.0]);
    assert_eq!(w.oldest(), Some(&4.0));
    assert_eq!(w.newest(), Some(&8.0));
    assert_eq!(*w.get(1), 6.0);
    assert_eq!(w.len(), 3);
    assert_eq!(w.capacity(), 3);
}

#[test]
fn window_clear_matches_fresh_window() {
    let mut used: RollingWindow<i32> = RollingWindow::new(2);
    used.push(1);
    used.push(2);
    used.push(3);
    used.clear();
    let mut fresh: RollingWindow<i32> = RollingWindow::new(2);
    for x in [7, 8, 9] {
        assert_eq!(used.push(x), fresh.push(x));
    }
    assert_eq!(used.to_vec(), fresh.to_vec());
    assert_eq!(used.capacity(), 2);
}

#[test]
fn period_one_window_holds_only_latest() {
    let mut w: RollingWindow<f64> = RollingWindow::new(1);
    assert_eq!(w.push(5.0), None);
    assert!(w.is_full());
    assert_eq!(w.push(9.0), Some(5.0));
    assert_eq!(w.to_vec(), vec![9.0]);
}

#[test]
fn sliding_windows_of_sma_example() {
    let data = vec![2.0, 4.0, 6.0, 8.0, 10.0];
    let ws = sliding_windows(&data, 3).unwrap();
    assert_eq!(ws.len(), 3);
    assert_eq!(ws[0], vec![2.0, 4.0, 6.0]);
    assert_eq!(ws[1], vec![4.0, 6.0, 8.0]);
    assert_eq!(ws[2], vec![6.0, 8.0, 10.0]);
    let means: Vec<f64> = ws.iter().map(|w| w.iter().sum::<f64>() / 3.0).collect();
    assert_eq!(means, vec![4.0, 6.0, 8.0]);
}

#[test]
fn sliding_windows_length_law() {
    let data: Vec<u32> = (0..10).collect();
    for p in 1..=10usize {
        let ws = sliding_windows(&data, p).unwrap();
        assert_eq!(ws.len(), data.len() - p + 1);
    }
    assert!(matches!(
        sliding_windows(&data, 11),
        Err(IndicatorError::InsufficientData(_))
    ));
    let empty: Vec<u32> = Vec::new();
    assert!(sliding_windows(&empty, 1).is_err());
}

#[test]
fn sliding_windows_agree_with_streaming_pushes() {
    let data = vec![3, 1, 4, 1, 5, 9, 2, 6];
    let batch = sliding_windows(&data, 3).unwrap();
    let mut w: RollingWindow<i32> = RollingWindow::new(3);
    let mut streamed = Vec::new();
    for &x in &data {
        w.push(x);
        if w.is_full() {
            streamed.push(w.to_vec());
        }
    }
    assert_eq!(batch, streamed);
}

#[test]
fn williams_r_scenario_windows() {
    // highs, lows and closes of three candles
    let candles = vec![(10.0, 5.0, 8.0), (15.0, 7.0, 9.0), (10.0, 6.0, 7.0)];
    let ws = sliding_windows(&candles, 3).unwrap();
    assert_eq!(ws.len(), 1);
    let hh = ws[0].iter().map(|c| c.0).fold(f64::MIN, f64::max);
    let ll = ws[0].iter().map(|c| c.1).fold(f64::MAX, f64::min);
    let close = ws[0][2].2;
    assert_eq!((hh - close) / (hh - ll) * -100.0, -80.0);
}

#[test]
fn full_window_spans_period_samples_back() {
    // reference volume of a rate of change over 2 steps
    let volumes = vec![100.0, 0.0, 150.0, 200.0, 300.0];
    let mut w: RollingWindow<f64> = RollingWindow::new(3);
    let mut pairs = Vec::new();
    for &v in &volumes {
        w.push(v);
        if w.is_full() {
            pairs.push((*w.oldest().unwrap(), *w.newest().unwrap()));
        }
    }
    assert_eq!(pairs, vec![(100.0, 150.0), (0.0, 200.0), (150.0, 300.0)]);
}
