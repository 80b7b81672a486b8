# clock-sync

The decisions of a validator's clock-sync service, written and proved in Verus.

Validators keep their clocks together by exchanging pulses in rounds. When a round finds no
synchronized quorum once the validator has been synchronized, it broadcasts a panic; validators
amplify panics that more than one third of the stake stands behind, and restart their rounds once
more than two thirds does.

- `src/` is the verified library. It does no input or output: `driver::ServiceLoop` names the
  outside work that comes next and takes in what came of it, `service::ServiceState` holds the
  decisions, `recovery::PanicTracker` counts the stake behind panics. `recovery_laws`,
  `service_laws` and `driver_laws` prove what holds of the whole.
- `tests/` runs the library on concrete values.
- `app/` is the service thread around the library. The clock, the fine loop, the delay estimates,
  the wire format and the round log are plugged in through the traits in `app/parts.rs`.

Beyond Verus and its specifications of the standard library, the proofs take one thing on trust:
that `Pubkey::to_bytes` hands out the bytes of a public key.
