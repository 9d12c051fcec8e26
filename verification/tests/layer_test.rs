use adapta::layer::{AdaptiveLayer, ErrorLatencyExtractor, LatencyExtractor, SignalExtractor};
use adapta::window::SampleWindow;
use adapta::AdaptationStrategy;
use std::sync::Arc;

/// A strategy that counts its signals and adapts to the last one.
#[derive(Debug, Default)]
struct LastSignal {
    last: Option<f64>,
    count: usize,
}

impl AdaptationStrategy<f64, f64> for LastSignal {
    fn observe(&mut self, signal: f64) {
        self.last = Some(signal);
        self.count += 1;
    }

    fn adapt(&self) -> Option<f64> {
        self.last
    }

    fn sample_count(&self) -> usize {
        self.count
    }
}

#[test]
fn latency_extractor_observes_every_outcome() {
    let ok: Result<&str, &str> = Ok("success");
    let err: Result<&str, &str> = Err("fail");
    assert_eq!(LatencyExtractor.extract(&ok, 12.5f64), Some(12.5));
    assert_eq!(LatencyExtractor.extract(&err, 40.0f64), Some(40.0));
}

#[test]
fn error_latency_extractor_observes_failures_only() {
    let ok: Result<&str, &str> = Ok("success");
    let err: Result<&str, &str> = Err("fail");
    assert_eq!(ErrorLatencyExtractor.extract(&ok, 12.5f64), None);
    assert_eq!(ErrorLatencyExtractor.extract(&err, 40.0f64), Some(40.0));
}

#[test]
fn layer_new_holds_the_strategy() {
    let layer = AdaptiveLayer::new(LastSignal::default());
    let handle = layer.strategy_handle();
    let strat = handle.lock().unwrap();
    assert_eq!(strat.sample_count(), 0);
    assert_eq!(strat.adapt(), None);
}

#[test]
fn layer_services_share_the_strategy() {
    let layer = AdaptiveLayer::with_extractor(LastSignal::default(), ErrorLatencyExtractor);
    let first = layer.layer(1u8);
    let second = layer.layer(2u8);
    assert!(Arc::ptr_eq(&first.strategy_handle(), &layer.strategy_handle()));
    assert!(Arc::ptr_eq(&second.strategy_handle(), &layer.strategy_handle()));

    first.strategy_handle().lock().unwrap().observe(7.0);
    second.strategy_handle().lock().unwrap().observe(9.0);
    let handle = layer.strategy_handle();
    let strat = handle.lock().unwrap();
    assert_eq!(strat.sample_count(), 2);
    assert_eq!(strat.adapt(), Some(9.0));
}

#[test]
fn service_feeds_failures_into_the_strategy() {
    let layer = AdaptiveLayer::with_extractor(LastSignal::default(), ErrorLatencyExtractor);
    let service = layer.layer(());
    let extractor = service.extractor_handle();
    let outcomes: Vec<Result<u32, &str>> = vec![Ok(1), Err("fail"), Ok(2), Err("fail"), Err("fail")];
    for (i, outcome) in outcomes.iter().enumerate() {
        if let Some(signal) = extractor.extract(outcome, 10.0 * i as f64) {
            service.strategy_handle().lock().unwrap().observe(signal);
        }
    }
    let handle = service.strategy_handle();
    let strat = handle.lock().unwrap();
    assert_eq!(strat.sample_count(), 3);
    assert_eq!(strat.adapt(), Some(40.0));
}

#[test]
fn service_inner_is_reachable() {
    let layer = AdaptiveLayer::new(LastSignal::default());
    let mut service = layer.layer(vec![1u8, 2]);
    service.inner_mut().push(3);
    assert_eq!(service.inner_mut().len(), 3);
    assert!(Arc::ptr_eq(&service.strategy_handle(), &layer.strategy_handle()));
}

#[test]
fn layer_shares_a_sample_window() {
    let layer = AdaptiveLayer::new(SampleWindow::new(0.0f64));
    let service = layer.layer(());
    for _ in 0..15 {
        service.strategy_handle().lock().unwrap().observe(3.0);
    }
    let handle = layer.strategy_handle();
    let window = handle.lock().unwrap();
    assert_eq!(window.len(), 15);
    assert!(window.has_min_samples());
}

#[test]
fn cloned_layers_and_services_share_the_strategy() {
    let layer = AdaptiveLayer::with_extractor(7u32, ErrorLatencyExtractor);
    let service = layer.layer(5u8);
    let service_copy = service.clone();
    let layer_copy = layer.clone();
    assert!(Arc::ptr_eq(&service_copy.strategy_handle(), &layer.strategy_handle()));
    assert!(Arc::ptr_eq(&layer_copy.strategy_handle(), &layer.strategy_handle()));
    *service_copy.strategy_handle().lock().unwrap() = 11;
    assert_eq!(*layer.strategy_handle().lock().unwrap(), 11);
}
