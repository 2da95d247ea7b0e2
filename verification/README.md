# kakarot_client

The client that answers Ethereum requests from the Kakarot contracts on Starknet, verified with
Verus.

Every operation of the client alternates requests to the outside (the Starknet node, the Kakarot
contracts, the sequencer's gateway) with decisions on the replies. In `src/` a request is a value
that says what is asked, and its `resume` says, for every reply, what comes next; the contracts
state both exactly. `app/` performs the requests and hands back the replies.

| Module | Contents |
|---|---|
| `step` | how an operation proceeds |
| `client`, `config` | the client and what it is configured with |
| `account`, `tokens` | nonces, balances, storage, calls and addresses |
| `block`, `blocks` | block ids, blocks and their transactions |
| `fees`, `estimate` | fee history, gas price and gas estimates |
| `simulation`, `gateway` | the simulation of a transaction by the gateway |
| `submission`, `events` | sending transactions, waiting for them, reading events |
| `felt`, `uint`, `address`, `bytes`, `text`, `helpers` | numbers, addresses and texts |
| `error`, `transaction` | the errors and the transactions that the client handles |

Calls into `starknet`, `serde_json`, `reqwest` and `ruint` stand behind small functions whose
contracts are taken on trust: in `felt`, `gateway`, `uint` and `client`.
