# rpc_interceptor

Backend of a wallet RPC interceptor: a browser pairs with a phone through a
short code, passkeys (WebAuthn) authenticate the device, RPC calls of paired
sessions are forwarded upstream, and transactions can be simulated through
Tenderly.

- `src/` is the library, verified with Verus: pairing codes (`codes`), the
  pairing state machine (`pairing`, `pairing_laws`), passkey challenges and
  tokens (`passkeys`, `passkey_laws`, `encoding`), the RPC session gate
  (`rpc`), simulation requests and summaries (`tenderly`, `tenderly_laws`,
  `ascii`), and the simulation command's input handling (`sim_input`,
  `sim_input_laws`). `pairing_store` and `passkey_store` hold the trusted
  wrappers around `dashmap`, `tokio` channels and `webauthn_rs`.
- `app/` is the executable: the axum server and the `tenderly-sim` command,
  with the JSON forms of the library's types.
- `tests/` exercises the library on concrete values.
