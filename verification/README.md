# strichliste

A digital tally sheet for use in trusted environments: users keep a balance,
deposit and withdraw money, buy articles from a snack bar by name or by
barcode, send money to each other and undo what they booked a moment ago.

The crate is written in Verus. `src/` is the library, and every function in it
is verified against its contract:

- `model/`, `models/`: amounts of money (exact formatting and the parser of
  amounts), pages of lists, transactions and their rows in the database,
  articles, barcodes, sounds and the error types.
- `backend/`: users, the rows of the database as plain values, and the
  reserved till and snack bar.
- `routes/`: what the pages decide: which groups a booking goes between,
  undoing a transaction among the members of two groups, sending money,
  creating and editing articles, the order of the lists, the search for
  users, the barcode scanner's input and the paging of old transactions.
- `text.rs`: the string functions that the rest is built on.

Public proof functions state the laws that hold across functions, such as
that reading back an amount that was written gives the same amount, or that
sending money neither makes nor loses any.

`app/` holds the rest: the database through sqlx, the copies of the types
that carry serde's and thiserror's derives, and the bodies of the server
functions, which read, call the library and write.
