# jade_client

A client for the [Blockstream Jade](https://blockstream.com/jade/) hardware
wallet. Scope is Bitcoin single signature; Liquid, multisig and firmware updates
are not covered.

- `src/` holds the rules, with contracts that Verus proves: which requests are
  sent and with which parameters, which are refused, what is made of the replies,
  and what is handed to the caller. Nothing in it does input or output.
- `app/` moves the bytes: an asynchronous session, a serial transport, and a
  transport that the host platform drives.
- `tests/` runs the rules on concrete values.

## Layout of `src/`

| Module | What it holds |
|---|---|
| `client` | The session: connecting, unlocking, logging out, the master fingerprint |
| `xpub`, `export`, `address`, `message`, `signing` | One operation each |
| `psbt` | Checks on a PSBT before it is sent and after it comes back |
| `keys`, `path` | Extended keys and derivation paths, read by the `bitcoin` crate |
| `entropy` | Random bytes for the device's pool |
| `protocol`, `error`, `types` | Requests, replies, errors and the shared vocabulary |
| `transport`, `serial` | How bytes are cut for a link, and what is decided about serial ports |
| `text` | Numbers and white space in text |

A few functions call other crates. Each is a small wrapper whose documentation
says what is claimed of the call without proof.
