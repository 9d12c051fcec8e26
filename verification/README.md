# adapta

A closed-loop adaptation kernel: an Edgeworth retry-margin tuner, an online
drift corrector, and Tower middleware that feeds request signals into them.

Layout:

- `src/` is the verified library.
  - `window.rs`: the 32-slot ring buffer of recent signals behind the
    Edgeworth tuner, with its contracts and laws (the window holds exactly the
    most recent signals; the slots the moments read are a permutation of it;
    the 15-sample gate).
  - `layer.rs`: the signal extractors and the layer/service pair that share one
    strategy behind `Arc<Mutex<_>>`.
  - `lib.rs`: the `AdaptationStrategy` port.
- `app/` is the unverified rest: the floating-point statistics of
  `EdgeworthBackoff` and `AdaJepaCorrector`, the `tower` trait impls and the
  polling future, and the command-line front end.
- `tests/` exercises the library.
