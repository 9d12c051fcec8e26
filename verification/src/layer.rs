//! Middleware plumbing: a layer that wraps services so that each request
//! outcome can be turned into a signal and fed into a shared adaptation
//! strategy.
//!
//! The strategy lives behind `Arc<Mutex<_>>` so that every service built from
//! one layer, and every handle taken from them, reaches the same strategy.
use std::sync::Arc;
use std::sync::Mutex;
use vstd::prelude::*;

verus! {

/// `std::sync::Mutex`, carried through opaquely.
#[verifier::external_type_specification]
#[verifier::external_body]
#[verifier::reject_recursive_types(T)]
pub struct ExMutex<T: ?Sized>(Mutex<T>);

/// `Mutex::new` wraps a value in a fresh lock. Its contents can change through
/// any handle afterwards, so nothing is stated of the result.
pub assume_specification<T>[ Mutex::<T>::new ](t: T) -> Mutex<T>;

/// `Arc::clone` makes another pointer to the same allocation: the result
/// denotes the same value as the argument.
#[verifier::external_body]
fn share<T>(a: &Arc<T>) -> (r: Arc<T>)
    ensures
        r == *a,
{
    Arc::clone(a)
}

/// Turns the outcome of a request, and the time it took, into an optional
/// adaptation signal.
pub trait SignalExtractor<Res, Er, T>: Send + Sync + 'static {
    fn extract(&self, result: &Result<Res, Er>, elapsed_ms: T) -> Option<T>;
}

/// Observes the latency of every request.
#[derive(Debug, Clone, Copy, Default)]
pub struct LatencyExtractor;

impl<Res, Er, T> SignalExtractor<Res, Er, T> for LatencyExtractor where
    Res: Send + 'static,
    Er: Send + 'static,
 {
    fn extract(&self, result: &Result<Res, Er>, elapsed_ms: T) -> (r: Option<T>)
        ensures
            r == Some(elapsed_ms),
    {
        Some(elapsed_ms)
    }
}

/// Observes the latency of failed requests only.
#[derive(Debug, Clone, Copy, Default)]
pub struct ErrorLatencyExtractor;

impl<Res, Er, T> SignalExtractor<Res, Er, T> for ErrorLatencyExtractor where
    Res: Send + 'static,
    Er: Send + 'static,
 {
    fn extract(&self, result: &Result<Res, Er>, elapsed_ms: T) -> (r: Option<T>)
        ensures
            r == (if result is Err {
                Some(elapsed_ms)
            } else {
                None
            }),
    {
        match result {
            Err(_) => Some(elapsed_ms),
            Ok(_) => None,
        }
    }
}

/// Wraps services with closed-loop observation and adaptation.
#[derive(Debug)]
#[verifier::reject_recursive_types(S)]
pub struct AdaptiveLayer<S, X> {
    strategy: Arc<Mutex<S>>,
    extractor: Arc<X>,
}

impl<S, X> AdaptiveLayer<S, X> {
    /// The shared strategy cell.
    pub closed spec fn shared_strategy(&self) -> Arc<Mutex<S>> {
        self.strategy
    }

    /// The signal extractor every wrapped service uses.
    pub closed spec fn extractor(&self) -> X {
        *self.extractor
    }
}

impl<S: Clone, X: Clone> Clone for AdaptiveLayer<S, X> {
    /// A copy of the layer that shares the same strategy and extractor.
    fn clone(&self) -> (c: Self)
        ensures
            c.shared_strategy() == self.shared_strategy(),
            c.extractor() == self.extractor(),
    {
        AdaptiveLayer { strategy: share(&self.strategy), extractor: share(&self.extractor) }
    }
}

impl<S> AdaptiveLayer<S, LatencyExtractor> {
    /// A layer that observes the latency of every request.
    pub fn new(strategy: S) -> (l: Self)
        ensures
            l.extractor() == LatencyExtractor,
    {
        AdaptiveLayer { strategy: Arc::new(Mutex::new(strategy)), extractor: Arc::new(LatencyExtractor) }
    }
}

impl<S, X> AdaptiveLayer<S, X> {
    /// A layer with a custom signal extractor.
    pub fn with_extractor(strategy: S, extractor: X) -> (l: Self)
        ensures
            l.extractor() == extractor,
    {
        AdaptiveLayer { strategy: Arc::new(Mutex::new(strategy)), extractor: Arc::new(extractor) }
    }

    /// A handle to the strategy that this layer and its services share.
    pub fn strategy_handle(&self) -> (h: Arc<Mutex<S>>)
        ensures
            h == self.shared_strategy(),
    {
        share(&self.strategy)
    }

    /// Wraps `inner`; the service shares this layer's strategy and extractor.
    pub fn layer<Inner>(&self, inner: Inner) -> (svc: AdaptiveService<Inner, S, X>)
        ensures
            svc.inner() == inner,
            svc.shared_strategy() == self.shared_strategy(),
            svc.extractor() == self.extractor(),
    {
        AdaptiveService { inner, strategy: share(&self.strategy), extractor: share(&self.extractor) }
    }
}

/// A service wrapper that feeds request signals into an adaptation strategy.
#[derive(Debug)]
#[verifier::reject_recursive_types(S)]
pub struct AdaptiveService<Inner, S, X> {
    inner: Inner,
    strategy: Arc<Mutex<S>>,
    extractor: Arc<X>,
}

impl<Inner: Clone, S: Clone, X: Clone> Clone for AdaptiveService<Inner, S, X> {
    /// A copy of the service: the inner service is cloned, the strategy and
    /// extractor are shared with the original.
    fn clone(&self) -> (c: Self)
        ensures
            cloned::<Inner>(self.inner(), c.inner()),
            c.shared_strategy() == self.shared_strategy(),
            c.extractor() == self.extractor(),
    {
        AdaptiveService {
            inner: self.inner.clone(),
            strategy: share(&self.strategy),
            extractor: share(&self.extractor),
        }
    }
}

impl<Inner, S, X> AdaptiveService<Inner, S, X> {
    /// The wrapped service.
    pub closed spec fn inner(&self) -> Inner {
        self.inner
    }

    /// The shared strategy cell.
    pub closed spec fn shared_strategy(&self) -> Arc<Mutex<S>> {
        self.strategy
    }

    /// The signal extractor.
    pub closed spec fn extractor(&self) -> X {
        *self.extractor
    }

    /// A handle to the underlying adaptation strategy.
    pub fn strategy_handle(&self) -> (h: Arc<Mutex<S>>)
        ensures
            h == self.shared_strategy(),
    {
        share(&self.strategy)
    }

    /// A handle to the signal extractor, for the future of a call.
    pub fn extractor_handle(&self) -> (h: Arc<X>)
        ensures
            *h == self.extractor(),
    {
        share(&self.extractor)
    }

    /// The wrapped service, to drive readiness and calls through.
    pub fn inner_mut(&mut self) -> (r: &mut Inner)
        ensures
            *r == old(self).inner(),
            final(self).inner() == *final(r),
            final(self).shared_strategy() == old(self).shared_strategy(),
            final(self).extractor() == old(self).extractor(),
    {
        &mut self.inner
    }
}

} // verus!
