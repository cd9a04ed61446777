# cult_backend

Backend of the cult token platform: it stores blockchain events sent by a
webhook, serves accounts, tokens and communities over HTTP, and computes the
Merkle airdrop data of NFT communities and of the diamond-hand list.

- `src/` is the verified library. Each module states its behaviour in Verus
  contracts:
  - `merkle`, `community`, `diamond_hands`: Merkle roots and proof maps of
    communities and of the diamond-hand list, address and leaf validation,
    and the smallest-key selection behind the weighted diamond-hand draw;
  - `events`: the rows and updates prepared from token events;
  - `account`: the steps of opening an account, as a state machine whose
    database work is done by the caller;
  - `hexcodec`, `numparse`, `prices`, `referral`, `service`, `websocket`,
    `models`, `text`: hex and decimal text, price symbols, referral codes,
    webhook and admin replies, websocket echo and small text helpers.
- `app/` is the server around it: routes, database statements, HTTP and
  IPFS requests, the webhook queue, the websocket session and the floating
  point price and sampling keys.
- `tests/` runs the library on concrete values.
