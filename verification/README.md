# servify

Message passing between a service's server and its clients, with the connecting code
generated from the service's methods.

- `src/` is the verified library. The two code generators work on the printed text of the
  tokens they are given and produce the printed text of the code they generate; every
  generated piece is specified by a spec function over `Seq<char>`.
  - `export_macro.rs`: the `export` attribute (an impl block exports each of its methods; a
    method named alone, with the service's path as argument, names its module).
  - `export.rs`: the request/response/server/client code generated for each method.
  - `refusal.rs`: a refusal's message and the text of the item or token it is about.
  - `service.rs`: the `service` attribute (its `impls = [..]` arguments, the message enum,
    the server's dispatch loop, the client's internal functions).
  - `naming.rs`, `casing.rs`, `path.rs`, `text.rs`: derived names, case conversion, type
    paths, and string helpers.
  - `syntax.rs`: the trusted boundary to `proc-macro2` and `syn` (lexing, printing, parsing
    into the plain models of `item.rs`, `path.rs` and `tokens.rs`). What a text parses to
    is not stated there; each reading comes as a `Parsed` value that records the text it
    was read from, and the functions that decide on the readings take them as arguments
    and require that each was read from the right part of the input.
  - `laws.rs`: what holds across the two attributes.
- `app/` holds the tokio runtime side (processor, service loop, access handle).
