# zero2prod

A newsletter subscription service. `src/` is the verified library:

- `routes/health_check.rs`: `GET /health_check` always answers 200 with no body.
- `routes/subscriptions.rs`: reading the submitted form (each of `name` and
  `email` exactly once, other keys ignored), the row stored for a new
  subscriber (random version 4 id, submitted name and email, and the time
  read from the clock, not before the Unix epoch; a clock that cannot be
  read as such a time is answered with 500),
  and the replies of `POST /subscriptions` and `GET /subscribers`.
- `clock.rs`: reading the system clock and turning the reading into
  microseconds since the Unix epoch, as chrono does.
- `startup.rs`: the listening address `127.0.0.1:<port>`, built digit by digit.
- `http.rs`: the reply type (status and body).
- `utils/env.rs`, `gibberish.rs`: settings and small closure exercises.

`app/` is the actix-web server around it: it binds the listener, talks to
Postgres with sqlx, and turns the library's replies into HTTP responses.
