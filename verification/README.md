# degenerate

A cross-platform prediction-market arbitrage engine. It watches equivalent markets
on Kalshi and Polymarket and, when both sides of an outcome cost less than the dollar
they pay, buys both at once.

The decisions are a library verified with Verus. The program around it talks to the
venues, the vector store and the dashboard.

## Library (`src/`)

| Module | What it holds |
|---|---|
| `text`, `clock`, `ids`, `dec` | Text, times, identifiers and decimal amounts |
| `models`, `messages` | The values that venues, dashboard and engine exchange |
| `tags`, `markets` | Topics, and markets in the form in which they are stored |
| `orderbook`, `orders` | Order books, building orders, reading their replies |
| `idset`, `book`, `guards`, `comms` | Watching arbs: indexes, prices, guards, evaluation |
| `balance`, `exec` | Sizing, buying both legs, hedging what one leg bought in excess |
| `platforms`, `kalshi`, `polymarket`, `ws` | Subscriptions, streams and reconnecting |
| `backfill`, `vector_store`, `grpc`, `config` | Collecting markets, searching them, sessions, settings |

Amounts are `rust_decimal` decimals behind the type `dec::Dec`. Streamed prices are
32-bit floats: the library carries them as bit patterns, and the program does the
floating-point arithmetic on them.

Each outside function that the library calls stands behind one small trusted function
in `dec`, `clock`, `ids` or `ws`, whose doc comment says what is claimed of it.

## Program (`app/`)

`app/` wires the clients, channels and tasks, performs what the library decides, and
converts between the library's types and those of the outside crates.

## Settings

| Variable | Meaning |
|---|---|
| `QDRANT_URL` | Vector store (default `http://localhost:6334`) |
| `GRPC_URL` | Dashboard (default `http://127.0.0.1:50051`) |
| `EXEC_MODE` | `optimistic` trusts streamed prices; anything else looks at the books again |
| `ARB_COOLDOWN_SECS` | Cooldown of a pair after a failed execution (default 30) |
| `TRADE_FRACTION` | Fraction of the smaller balance per trade, between 0 and 1 (default 0.20) |
| `MIN_TRADE_SIZE` | Least worth of a trade in dollars (default 2) |
