# zenoh-flat

A flat, binding-friendly library over [zenoh](https://zenoh.io): every
operation is a free function named `<type>_<verb>` that takes and returns
plain values, so that bindings for other languages can be generated from it.

The crate has two parts.

- `src/` is the library proper, verified with Verus: key expressions,
  payloads and encodings, samples, queries and replies, scouting replies,
  timestamps, node identifiers, selector parameters, configuration parsing,
  quality-of-service settings and the advanced publish/subscribe settings.
  Every public function states what it returns in its contract, except
  that the default configuration is left opaque: zenoh's default
  configuration has no plain-value description to state it by. Where the
  answer is zenoh's own rule (which texts are valid key expressions, how an
  encoding is rendered), the function calls zenoh through a small trusted
  wrapper whose contract names that rule; where a rule fits in a few lines
  (how selector parameters are split, looked up and rebuilt), the contract
  spells it out and laws about it are proved (`law_*` proof functions).
- `app/` holds the network side: opening sessions, declaring publishers,
  subscribers, queriers, queryables and liveliness tokens, scouting,
  connectivity events, and the advanced publisher and subscriber. It converts
  between zenoh's values and the library's and delivers the library's values
  to callbacks.

Tests under `tests/` run the library against the real zenoh crates.
