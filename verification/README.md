# Kora

Two contracts of an invoice-financing protocol, verified with Verus:

- the **marketplace**, on which sellers list invoices below their face value and investors fund
  them, with fees, referrers, cancellations, refunds and a timelocked upgrade;
- the **risk registry** of staked verifiers, of the businesses that they register, and of debtors'
  risk scores, with an audit log of admin actions.

Every call of a contract is a function from the contract's storage, the context of the call and its
arguments to a verdict, the new storage, and the effects that the host carries out: token
transfers, calls of other contracts, events, extensions of the life of entries. A call that is
refused changes nothing and asks for nothing. Where a call needs an answer from another part of the
protocol, it returns the question and is made again with the answer.

## Layout

- `src/marketplace/`, `src/risk_registry/`
  - `model.rs`: storage as maps, and what each call decides and does to it
  - `contract.rs`: the executable calls, proved to do just that
  - `history.rs`: sequences of calls, and what they keep
  - `laws.rs`: what the calls promise together
  - `pool.rs`, `stakes.rs`: the money that the contracts answer for
- `src/audit.rs`: the ring of audit entries and its pages
- `src/table.rs`, `src/sums.rs`, `src/validation.rs`: finite maps, sums over them, and the shared
  rules on amounts, rates and scores
- `tests/`: the contracts on concrete values
- `app/`: the contracts on the Soroban host, around the library
