# starlay_lending

The logic of a Compound-style lending protocol, verified with Verus: pools that
take deposits and lend them out, a controller that decides whether an account may
mint, redeem, borrow, transfer or be liquidated, and the fixed-point arithmetic
they share.

The contracts of the protocol talk to each other and to tokens by messages. The
library holds what each contract decides; what another contract or the chain
answers comes in as a plain argument (an `Env` with the caller, the block and the
pool's cash; the controller's `Result`; whether a token transfer went through), so
every decision is verified for every answer. What a pool asks of the others comes
out as plain values too: the seize calculation and the seizure of a liquidation
(`liquidation_requests`) and the transfers of the underlying (`mint_transfer`,
`redeem_transfer`, `borrow_transfer`, `repay_transfer`), and so do the events of the
asset operations (`pool::Event`, `controller::MarketListed`,
`flashloan_gateway::FlashLoanEvent`), for whatever emits them.

Layout of `src/`:

- `u256`, `types`, `exp`, `wad_ray`, `percent`, `arith`: 256-bit integers (the
  overflow-checked operations come from `primitive-types`), 18- and 27-decimal
  fixed point, percentages, and arithmetic lemmas.
- `interest_rate_model`: the kinked borrow and supply rates.
- `pool`: a lending pool with its pool-token ledger (`psp22`): interest accrual,
  mint, redeem, borrow, repay, liquidation and seizure, reserves, delegation,
  administration; `pool::utils` holds the interest and exchange-rate formulas.
- `controller`: market listing, collateral factors, guardians, account liquidity
  and the permission checks; `controller::utils` holds the liquidity, seize and
  health-factor formulas.
- `leverager`, `flashloan_gateway`, `weth_gateway`, `weth`, `manager`, `lens`,
  `price_oracle`, `incentives_controller`, `mocks`: the periphery contracts.
- `laws`: properties that span operations (rates rise with utilization, interest
  accrues once per block, a repayment leaves the exchange rate unchanged, a market
  is listed once, scaling by an index and back loses at most the rounding, `close`
  ends within its rounds, ...).

`tests/` runs the library on concrete values.
