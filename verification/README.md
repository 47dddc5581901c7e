# wininfra

A Windows infrastructure toolkit whose core is verified with Verus: the
logic behind managing Hyper-V virtual machines and Failover Clusters, a
small REST service in front of it, and a few number and data-structure
utilities.

## Layout

- `src/` — the verified library.
  - `vm`, `vhd`, `switch`, `snapshot`, `disk`, `gpu`, `host`, `hcs`,
    `wmi/` — Hyper-V: state mapping, the PowerShell and WQL text that each
    operation runs, and the result each operation gives for what the
    command reported (its outcome and the records decoded from its JSON).
  - `clus/` — Failover Cluster: node, group and resource states, cluster
    shared volumes, GUID parsing, enumeration steps.
  - `powershell`, `text`, `wide`, `error` — command outcomes, text and
    UTF-16 handling, error messages.
  - `api/` — the REST service's configuration, response envelopes,
    transfer objects and request decisions.
  - `math`, `operations`, `hello`, `big_number`, `linked_list` — GCD
    routines, a person's age, a number's text, a singly linked list.
- `tests/` — tests run against the compiled library.
- `app/` — the programs: the REST service (`api`), the GCD calculator
  (`gcd`), the greeting (`hello`), the integer-arithmetic tour (`basics`)
  and the host listings (`hv`). They run commands, decode JSON, read files
  and serve HTTP; every decision they act on comes from the library.
