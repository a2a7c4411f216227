# oas

A container runtime that gives every pod a Firecracker microVM restored from a
snapshot. It serves the Kubernetes container runtime interface, and it can be
the shim that containerd starts for a pod.

The library under `src/` holds what the runtime decides, with contracts that
Verus proves:

| module | what it is about |
| --- | --- |
| `types` | records of sandboxes and containers, filters, leases |
| `config` | the configuration, types of sandboxes and the paths made from them |
| `store` | tables of records in memory and in a database, address leases, selection |
| `net` | the commands that build and take down a sandbox's network |
| `storage` | the steps to a sandbox's disks |
| `driver` | microVMs: restoring, watching and removing them, and talking to their shims |
| `manager` | the life of sandboxes and containers |
| `cri` | the container runtime interface: messages, conversions, services |
| `ctrd` | the shim for containerd: bundles, tasks, the microVM of a pod |
| `mock` | backends that only keep count |
| `strmap`, `text`, `model` | maps keyed by text, operations on text, views of values |

Whatever takes input or output is written as a machine: `action` tells what to
do next, `advance` takes what came of it, and the contracts fix both for every
reply. Laws that span several functions are public proof functions; many stand
in files named `laws.rs`.

`app/` is the program around the library: it performs the actions, keeps records
as JSON in a redb file, and serves gRPC and ttrpc. `tests/` runs the library on
concrete values.
