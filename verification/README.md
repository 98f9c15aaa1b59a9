# xodus_auth

The decisions behind signing in to Xbox Live, verified with Verus.

- `src/hex.rs`, `src/text.rs`: pairs of hexadecimal digits, lines of a text, decimal numbers.
- `src/key.rs`: a P-256 secret key as the bytes of its scalar.
- `src/proof_key.rs`: which proof key the service mints tokens with, and how a caller gets it.
- `src/params.rs`: what an authenticator is built from.
- `src/session.rs`: a new session, and requests for XSTS tokens.
- `src/sisu.rs`: authorizing a title through SISU.
- `app/`: the calls to the keychain, to Microsoft and to Xbox Live.

A flow that waits for calls to the outside is a function from a state and an
event to the next state and an action. `app/` performs the action and hands the
outcome back as the next event.
