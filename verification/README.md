# rustnn

A builder for neural-network graphs. Inputs and operations are added one call at a time; once the
outputs are named, the finished graph goes to a backend.

- `src/mlgraphbuilder.rs`: the builder.
- `src/outputs.rs`: naming the outputs of a graph.
- `src/graph.rs`, `src/operator_enums.rs`, `src/operator_options.rs`: the graph and its parts.
- `src/mlcontext.rs`: the context, and the traits that a backend implements.
- `src/error.rs`: the errors and their messages.
- `src/model.rs`: what each builder call does, as functions on mathematical views.
- `src/laws.rs`: theorems about the builder as a whole.

Backends are not trusted: the builder's contracts say which graph a backend is given, and that its
reply is passed on as it came. The one thing taken without proof is how `HashMap::iter` walks a map
with string keys, in `src/outputs.rs`.
