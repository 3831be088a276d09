# soldier_core

The decision core of a trading agent's execution and risk layer, written in Verus:
each public function carries a `requires` / `ensures` contract that Verus proves.

## Layout

- `src/` — the verified library.
  - `policy/` — trading-mode resolution (`guard`), certificate admission (`f1_gate`,
    `cert_json`), canonical JSON and its SHA-256 digest, the reduce-only watchdog.
  - `risk/` — risk states and the monitors that feed them: exchange health, expiry,
    churn, basis, network jitter, self impact, fees, margin and exposure buckets.
  - `execution/` — order intents and their classification, the sequence of checks
    that admits an intent, dispatch mapping, the order-leg lifecycle machine, atomic
    groups and their rescue, the step sequencer, emergency close scheduling.
  - `reflex/` — the market cortex that turns readings into override signals.
  - `analytics/` — the evidence-chain guard.
  - `recovery/` — matching exchange orders back to the legs that sent them.
  - `venue/` — instrument kinds, capabilities and the instrument metadata cache.
- `tests/` — tests of the library on concrete values.
- `app/` — the parts that work on floating-point prices and quantities, on the
  clock and the environment, and on process-wide counters; they call the library
  for every decision it can take on plain values.

Laws that relate several operations stand in `src/` as public proof functions
(`lemma_*`), each with a doc comment stating the law in words.
