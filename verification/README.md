# solana-charity-donations (verified core)

Campaigns collect SOL donations; the owner withdraws what was raised; donors
reclaim their donation while the campaign still holds it.

- `src/` — the verified library (Verus):
  - `address.rs` — 32-byte account addresses.
  - `state.rs` — the `Campaign` and `DonationRecord` accounts and their size limits.
  - `instructions.rs` — the rules of each instruction as spec functions, and the
    verified `initialize_campaign`, `donate`, `withdraw`, `request_refund` and
    `close_campaign` that follow them exactly (a refusal changes nothing).
  - `pda.rs` — addresses of campaign and donation-record accounts, derived by the
    Solana SDK.
  - `laws.rs` — properties across instructions: lamports are conserved, the
    campaign account always holds its rent minimum plus what is raised and not
    withdrawn, the raised total and donor count agree with the donation records,
    every unwithdrawn lamport is owed to a gift that can still be reclaimed, a
    gift is returned in full by an immediate refund, only owners act.
  - `error.rs` — why an instruction is refused.
- `tests/` — concrete scenarios, including a whole campaign lifecycle.
- `app/` — the Anchor entry points (clock, rent, lamport moves, system transfer,
  account serialisation) and the `charity-cli` client. The client is built on
  `anchor-client`, which is not a dependency of this crate, so `app/` does not
  compile on its own.

How refunds are settled: a campaign's life is split into epochs, and an epoch
ends each time everything raised has been withdrawn or refunded. A refund pays
in full what the record gave in the current epoch, or is refused when the
campaign holds less than that above its rent-exempt minimum; nothing is paid in
part. What was given in an ended epoch was withdrawn and is owed nothing, and
neither are the records of an earlier campaign at the same address: a campaign
cannot be closed in the slot it was created in, so each creation has its own
slot.
