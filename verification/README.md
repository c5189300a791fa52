# solari

A payment module for Vipps, Stripe and Apple Pay.

The library (`src/`) decides everything about a payment and is verified with
Verus: it builds the HTTP requests for the providers, reads their replies,
keeps the Vipps access token, reports errors with their HTTP statuses, and
validates what the HTTP routes receive. It never touches the network or the
clock: the caller sends each request it is given, hands back the reply, and
passes the current time.

- `text` – decimal rendering, unsigned parsing, Unicode trimming, joining
- `payment` – payment statuses, types and responses
- `error` – provider errors and their texts
- `http` – requests and replies as plain values
- `vipps`, `stripe`, `apple_pay` – the providers
- `service` – the payment service and the step-by-step payment flow
- `api` – route bodies, request validation, error statuses, server setup
- `laws` – properties that hold across calls

`app/` holds the runtime: a `reqwest` client that drives the payment flow,
the serde forms of the library's types, and the axum routes.
