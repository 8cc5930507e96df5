# function_target

A function target is a function of a program model together with bytecode, local types and other data
that analyses and transformations can rewrite. This crate holds the data, answers questions about it
(names and indices of locals, return indices of mutable references, free attributes and labels,
pragmas, locations), forks it into variants, and prints it.

- `src/model.rs`: the environment that a target reads, as plain values.
- `src/bytecode.rs`, `src/annotations.rs`: instructions, annotations and their formatters.
- `src/function_data.rs`: the data of a target.
- `src/function_target.rs`: the target itself.
- `src/display.rs`, `src/text.rs`: its printed form.
- `src/laws.rs`: what holds across functions.
- `app/`: `std::fmt::Display` for a target.
