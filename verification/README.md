# qrap_core

Core library of the quantum runtime attestation protocol, verified with Verus.

- `src/runtime.rs`: the runtime configuration and the runtime's state machine
  (create, start, stop, reset, timeout check), with the laws of its transitions.
- `src/attestation.rs`: attestations bound to the SHA-256 digest of their data,
  their identifiers, signatures, verification, expiry and JSON text.
- `src/grover.rs`: the oracle of a Grover search.
- `src/digest.rs`, `src/clock.rs`, `src/text.rs`: SHA-256 and hexadecimal text,
  clock readings and spans of time, decimal text.
- `app/`: the floating-point Grover simulator, error messages, and the Python
  and WebAssembly bindings.
