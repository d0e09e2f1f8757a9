# access_window

A temporary access-window service: applications for access to a resource move
through a lifecycle, an approval opens a time-bounded access window, and the
window may only be activated while the current time lies inside it.

```
draft → submitted → approved → active → expired / revoked
                  ↘ rejected        ↘ revoked / expired
```

## Layout

- `src/` is the library, proved against its contracts: the lifecycle decisions
  (`lifecycle`), the read-side queries (`queries`), credentials and roles
  (`auth`), the error replies (`error`), time handling over `chrono` (`clock`)
  and the text helpers they rest on (`text`). Its proof functions state the
  lifecycle laws: every step keeps the stored application and window consistent,
  steps only move forward and are never repeated, final states allow no step,
  a run of steps records one entry per step, the walk-through below ends with
  the history it should, the active-window listing follows activation,
  revocation and expiry, and activation and expiry are bound to the requested
  time range (for ranges within the years 0000–9999, which RFC 3339 text reads
  back).
- `app/` is the HTTP service (axum) with its SQLite store (rusqlite): it reads
  rows, asks the library for a decision, and writes back what was decided.
  It listens on port `18123`; the database file is `./access_window.db` unless
  `DB_PATH` says otherwise.
- A window is listed as in effect while it is active and the current time lies
  in its range, ends included, its stored times read as RFC 3339 and compared as
  instants (on the times the service writes this agrees with comparing their
  text).
- `tests/` exercise the library on concrete values.

## Which service this is

The service is the one whose routes, tables and messages are listed here:
`POST /requests`, `/requests/:id/{submit,approve,reject,activate,revoke,expire}`,
`GET /requests/:id/history` and `GET /resources/:resource/active-windows`, over
the tables `requests`, `windows`, `submissions`, `approvals`, `activations`,
`expirations` and `revocations`. The acting person is named in the request body
(`approver`, `revoked_by`), and refusals are answered as `{"error": message}`.

Besides that service the library carries a token registry with roles (who may
take which step), an error type with its replies, and a filtered listing of
applications; the service itself does not route them. `get_application_history`
gives the service's history answer (404 "request not found", and the
submission and expiry records along with the others).

Not carried over from a richer variant of the service with authenticated
callers: the answers "invalid state transition", "not yet reached start time",
"already expired" and "forbidden" for lifecycle steps, the rule that only the
applicant or an admin may submit or activate, and the `activated_at`,
`expired_at` and `revoked_at` columns of a window (the records in the history
keep those times).
