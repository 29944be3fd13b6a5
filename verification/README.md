# subscription_vault

A vault that holds prepaid subscription balances and bills them, written and
proved in Verus.

A subscriber opens a subscription with a merchant and pays in. The vault charges
the recurring amount once per interval, or metered usage, and shares it out
between the merchant and the treasury. Subscriptions can be paused, resumed and
cancelled; a cancelled one pays its balance back.

## Layout

- `src/` is the library. `vault.rs` holds the state and its mathematical model,
  `VaultState`; the other modules hold the calls, by topic. `operations.rs` has
  all calls as one type, `custody.rs` proves that no call makes or loses money,
  and `laws.rs` holds what else is true across calls. `restore.rs` puts a vault
  together from records.
- `app/` is the Soroban contract around the library: it checks authorisation,
  keeps the vault in ledger storage, publishes events and moves tokens.
- `tests/` runs the library, with the real `soroban_sdk`.

A call takes the ledger time as an argument. The events that it announces and the
token movements that it asks for are collected in the vault, for the host to carry
out. A call that is refused leaves the vault as it was.

## What is not proved

The host's lists, `soroban_sdk::Vec`, are taken at their word: `src/id_list.rs`
states what their methods do. `app/` is ordinary Rust.
