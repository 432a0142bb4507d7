# lldb_safe

Safe Rust bindings for LLDB 19, with the logic around LLDB verified by Verus.

- `src/` is the verified library: the handle types of LLDB's SB API and what the bindings
  decide about LLDB's answers (null handles, failure reports, C string buffers, the `State`
  and `StopReason` numbering, error texts), the parsing of `reg query` and `lldb --version`
  output, the UTF-16 path handed to `SetDllDirectoryW`, and the search for an LLDB
  installation (`Discovery` and `PrefixProbe`, state machines whose steps ask for environment
  variables, command output and file existence).
- `app/` calls LLDB's C ABI, owns and frees the SB objects, and runs the search against the
  real environment, file system and processes (`find_lldb`).
- `tests/` exercises the library on concrete inputs.
