# zally_wallet

The decision core of a Zcash wallet, written and verified in Verus: what to propose, sign,
submit, scan, repair, retry, and report, for every answer that storage, the chain source, the
submitter, and the sealing backend can give.

- `src/` is the verified library. Anything that waits on the outside is a state machine: a
  function from the state and what came back to the next state and the next request. Its
  contract is a spec function over plain values; the laws that span calls are public proof
  functions (`spend_laws`, `sync::ladder_laws`, `sync::wakeup_laws`, and beside the types they
  speak of).
- `app/` runs the machines: async tasks, channels, clocks, logging, and the traits by which a
  host plugs in its backends.
- `tests/` runs the library on concrete values, with the real `zip321`, `zcash_address`,
  `zcash_keys`, and `zcash_protocol` crates behind its trusted wrappers.
