# namada_indexer

The verified core of a block explorer indexer for the Namada chain, written
in Verus.

- `src/indexer/block_result.rs` reads the events of a block into transaction
  attributes and batch results, and decides whether a wrapper or an inner
  transaction was applied.
- `src/indexer/tx.rs` decides how the data of an inner transaction is turned
  into JSON according to its type.
- `src/views.rs` builds the queries that drop and create the database views,
  one per kind of inner transaction.
- `src/server/` holds what the server answers and the decisions its handlers
  take: names of tally results and validator states, how a validator address
  is read, how the consensus set is ranked by stake and paged.
- `src/text.rs` holds the string functions these rest on: replacing a pattern,
  reading a decimal `u64`, looking up key/value pairs.

`app/` holds what talks to the node and serializes answers: it converts the
node's block results and the chain's types into the library's plain types.
