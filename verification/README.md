# whitelist_transfer_hook

A vault for one token mint whose deposits and withdrawals are limited to whitelisted users,
with the amount each user has put in recorded on the whitelist. It also has a randomness
request for a user's account, served by an oracle. The rules are written in Verus and proved.

- `src/` is the verified library: addresses (`pubkey`), error codes and messages (`error`),
  the account types (`state`), the whitelist and its account resize (`whitelist`), the vault's
  creation, deposits, withdrawals and minting (`vault_ops`), the randomness request
  (`randomness`), and the laws that relate the operations (`laws`).
- `app/` is the Anchor program around it: account validation, the token and system transfers,
  the account resize and the randomness request's invocation. Its handlers read the accounts
  into the library's types, follow the plans the library returns and write the results back.
- `tests/` runs the library on concrete values.
