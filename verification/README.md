# cargo-sonic

`cargo-sonic` builds one Linux executable that runs well on many CPUs. It builds a program
once for each of several target CPUs, and puts all builds into one executable, or beside it.
A loader in front of them looks at the host and runs the build that suits it best.

`src/` is the library, verified with Verus: how CPU features are detected, how variants are
planned, ranked and selected, how Cargo and rustc are asked and their answers read, how the
loader is generated, and how the list of dependencies is made. `app/` is the command: it runs
processes, reads and writes files, and prints. `tests/` runs the library on concrete values.

```
cargo sonic --target-cpus=x86-64-v3,znver5 build --release
cargo sonic --target-cpus=x86-64-v3,znver5 probe
cargo sonic score
```

What the library takes on trust stands next to its name: the functions marked
`external_body` and the `assume_specification` items say which function of another crate they
call and what they claim of it. All else in `src/` is proved.
