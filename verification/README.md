# esbuild_client

A client for [esbuild](https://esbuild.github.io), which runs as a child process and is spoken to
over its standard input and output.

- `src/` is the library, verified with Verus: the encoding of values and packets, the conversion
  between values and messages, the reassembly of packets from a stream of bytes, the bookkeeping
  of requests, the answers of plugin hooks, and the flags of a build. It does no input or output.
- `app/` starts the process, moves the bytes, waits for answers and calls plugins.
- `tests/` runs the library on concrete values.

The maps keep their entries in insertion order; they are `indexmap::IndexMap`s. What the proofs
take on trust of them is in `src/protocol/maps.rs` and `src/protocol/value.rs`. Of the standard
library they take on trust the UTF-8 check in `src/protocol/wire.rs`, and for printing what is in
`src/debug.rs` and the quoting of strings in `src/protocol/printed.rs`.

What holds of writing and then reading:

- `lemma_decode_encoded`, `lemma_decode_encoded_packet`: an encoded value or packet is decoded to
  the same;
- `lemma_written_packets_arrive`, `lemma_reads_can_be_split`: the packets that are written arrive,
  each of them once and in order, however the bytes are cut up on their way;
- `lemma_survives`, on the messages that are both sent and received: what is sent for a message is
  converted back to a message for which the same is sent;
- `lemma_response_reaches_sender`: a response goes to the one who waits for it, once.
