# Foxhole

Foxhole runs an untrusted program in a disposable Hyper-V virtual machine: it checks the request,
prepares the machine and its disks, starts it, watches it, collects what the guest reports and
cleans up. This crate holds the decisions of that work, written in Rust and proved with
[Verus](https://github.com/verus-lang/verus).

## Layout

- `src/` is the library. Its functions have contracts over a mathematical model: text is a
  sequence of characters, paths are sequences of parts, a run is a state that events carry on.
  - `backend`, `dispatcher`, `structs`: requests, results, errors, and which backend is selected.
  - `text`, `net`, `address_text`, `sorted`, `host_path`, `digest`, `clock`: what the rest is built
    of.
  - `sandbox_utils`, `sandbox_linux`: command lines, and the namespaces of a Linux sandbox.
  - `hyperv`: the Hyper-V backend.
    - `admission`, `provisioning`, `execution`, `cleanup`, `lifecycle`, `recovery`: the life of a
      run.
    - `journal`, `journal_files`: what a run owns on the host, recorded before it is used.
    - `guest_protocol`, `protocol_files`, `staging`, `exchange`: the files that host and guest
      exchange.
    - `collection`, `rescue`, `tree_walk`, `guest_files`, `result_collector`: what a guest leaves.
    - `base_image`, `disk`, `data_disk`, `vm`, `capability`, `runtime`, `observation`: images, disks and
      machines.
    - `network`, `leases`, `address_space`: the network of a run and its firewall.
    - `powershell`, `shell`, `scripts`, `reply`: how the host is asked to do something.
- `app/` performs the steps that the library asks for: it opens files, starts PowerShell, reads and
  writes JSON, and reports what came of it.
- `tests/` runs the library on concrete values.

## How a run is driven

Work that alternates with the host is a state with a `step` and an `advance` function. The caller
performs the step and hands back what came of it; `advance` says what follows. Its contract relates
the state before, the event and the state after, and an invariant (`consistent` or `well_formed`)
holds of every state that can be reached. What holds of a run as a whole is stated by the public
proof functions at the end of each module, for example that resources are recorded before they are
used, that a guest result counts only after a second verification of its network, and that a
finished cleanup leaves nothing behind.

What is not proved is stated where it is used: the contracts of the few functions of the standard
library, `sha2`, `serde_json` and `nix` that the library calls.
