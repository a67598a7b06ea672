# expent

Expense management: wallets and transactions whose balance changes are
computed and proved, OCR readings of receipts and Google Pay screenshots
turned into transactions, subscription detection, bank statement
reconciliation, shared requests between users, groups, ledger tabs, contacts
and categories.

- `src/` is the library, verified with Verus. Each operation takes the rows it
  needs as plain values and returns what to write, with contracts over
  mathematical models (`Seq`, `int`, views of the records). Laws that relate
  several operations (deleting then restoring a transaction leaves balances
  unchanged, a rejected request cannot be accepted, built-in categories are
  never removed, ...) are proof functions named `law_*`.
- `tests/` runs the library on concrete values.
- `app/` is the HTTP server around it: axum routes, sea-orm tables, the
  sign-in service, storage and the OCR engine.
