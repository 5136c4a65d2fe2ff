# Keysat

Keysat sells and checks software licenses. It takes payment through BTCPay or
Zaprite, issues signed license keys, and tells licensed software whether a key is
good, for how long, and on how many machines.

## Layout

- `src/` is the library. It holds the rules of the service, verified with Verus. Only
  small functions that call other crates or the standard library are taken on trust,
  each for what its contract says.
  - `crypto/` reads, writes, signs and checks license keys.
  - `api/` decides what each endpoint answers: purchases, redeemed codes,
    validations, machines, subscriptions, notices of payment, and what the operator
    and holders of scoped keys may do.
  - `btcpay/` holds what is asked of a BTCPay server and how its replies and notices
    are read.
  - `codec.rs`, `clock.rs`, `html.rs` and `text.rs` hold text, time and nearly all
    calls into other crates. Each such call stands in a small function of its own,
    whose contract says what is taken for granted.
- `app/` is the service around the library: routes, the database and HTTP clients.
- `tests/` runs the library on concrete values.

## How decisions are written

An endpoint that looks things up as it decides is a function from the facts that are
known to the next step: find a record, make a call, or answer. Its contract says
which step is taken for which facts. `app/` takes the step, adds what it learned to
the facts, and asks again. The public proof functions state what holds over all of
these steps, such as that only confirmed payments are honoured.
