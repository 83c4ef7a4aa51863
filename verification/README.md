# arb_bot

A bot that looks for arbitrage between Kalshi and Polymarket on a binary
event (A vs B): it buys one contract that pays if A wins and one that pays if
B wins, on different platforms, whenever both cost less than the payout of 1
after fees.

- `src/` is the library, verified with Verus:
  - `decimal`: decimal amounts as mantissa and scale, with the arithmetic
    done by `rust_decimal` behind small trusted wrappers;
  - `types`: quotes, trade legs, opportunities and their texts;
  - `orderbook`: Kalshi's local order books, their best asks and the feed of
    both markets;
  - `poly`: Polymarket's best asks of the two outcome tokens;
  - `arbitrage`: the four strategies, the opportunity rule and the
    detector's state;
  - `orders`: the orders that carry out a leg on each platform;
  - `config`: the settings.
- `app/` is the program around it: websocket sessions, order placement,
  balance logging and reading the settings from the environment.
- `tests/` exercises the library on concrete values.
