# AdsBazaar

On-chain rules of a creator marketplace, verified with Verus.

A business opens a campaign and deposits its budget; creators apply, are
selected for an agreed payout, deliver, and claim it; contested payouts are
frozen and settled. Two contracts do this:

- `campaign_escrow` holds the budgets and releases them,
- `dispute_resolution` records disputes over payouts and has them frozen.

## Layout

- `src/campaign_escrow/contract.rs`, `src/dispute_resolution/contract.rs`: the
  entry points. Each runs on an `Env`, the ledger entries it reads and writes as
  plain values, and adds what it asks of the host to a log.
- `rules`: for each entry point, what it is refused for and the state it leaves
  when accepted. The contracts of the entry points are stated over these.
- `calls`: any call as one value, and series of calls.
- `laws`: what holds across calls. Among others: the books always balance, the
  contract holds what its books say, a promised payout survives every refund
  and is paid once, a frozen payout is untouched until the evidence window has
  passed, and nothing moves without authorisation.
- `src/system.rs`: the two contracts together. A payout under an open dispute is
  frozen, and its settlement ends the dispute.
- `app/`: the contracts on the Soroban host. It loads the entries, applies the
  rules and performs the log.
- `tests/`: whole campaigns, single rules, and both contracts on one ledger.
