# autonomous_mm

A minimal autonomous market maker for Solana: a token whose price depends on its
supply alone. There is no oracle, no owner and no instruction that withdraws.

```
P(s) = P0 * (1 + s/S0)^2
V(s) = P0 * N(s) / (3*S0^2),   N(s) = 3*S0^2*s + 3*S0*s^2 + s^3
```

A buy pays `ceil(dV * (1 + phi/2))` and mints; a sell is paid
`floor(dV * (1 - phi/2))` and burns. The spread goes to the treasury, but never
more than what the vault holds above its rent floor and `V(s)`.

## The verified library, `src/`

| Module | What it holds |
|---|---|
| `params`, `ids`, `pubkey` | parameters of the market, known addresses |
| `model` | the curve and the settlement rules over mathematical integers |
| `math` | the checked arithmetic of the program |
| `curve` | a second, independent computation of the prices |
| `market` | the four instructions: what each refuses, and what it moves |
| `laws`, `history` | what holds of any trade, and along any history of trades |
| `lemmas` | rounding, and the shape of the curve |
| `address`, `instruction`, `keys` | what a client builds |
| `spl`, `logs` | what a client reads |
| `audit`, `rehearsal`, `polling` | what the rehearsals of a deployment check, in which order, and how they wait |
| `outside` | the calls into other crates, whose contracts are taken on trust |

Among the laws: while the rent stays as it was, the vault covers its rent floor
and the liability along any history of trades, and every holder can sell; no
closed cycle of trades pays; the treasury can neither stop a trade nor touch what
the vault already held; a quote is refused where the settlement is, and agrees
with it to the lamport; once set up, the market never changes its treasury. Where
the rent floor rises, the vault lacks no more than the rise, and anyone can send
it that.

## Around it

`tests/` runs the library. `app/` holds the on-chain program, a harness that runs
the compiled program in a local VM, and the rehearsal of a deployment on a
running validator.

`EXPECTED_DEPLOYER` is the test deployer, whose key comes from a seed in the
source. It has to be replaced before a deployment.
