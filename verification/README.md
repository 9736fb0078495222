# gateway_protocol

Schemas of the gateway protocol: the request, result and event payloads that
clients, nodes and the gateway exchange, with the checks that decide whether a
payload is acceptable.

Every `validate` method is verified with Verus against a spec function
(`check`) that states, field by field and in order, which check fails first
and the exact message it reports. Enumerations come with their wire texts and
laws that parsing a wire text gives its value back; string grammars (skill
names, secret reference ids, dates, offsets, hashes) are functions on
characters proved against their grammar.

Layout:

- `src/` — the verified library, one module per protocol area (`cron`,
  `sessions`, `nodes`, `exec_approvals`, ...), plus the shared pieces:
  `checks` (outcomes, messages and list checks), `text` (character classes,
  number and `Debug` rendering, string order), `maps` (walking string-keyed
  maps in key order) and `json` (numbers and opaque JSON values).
- `tests/` — tests on concrete payloads.
- `app/` — what stays outside the verified library: the serde forms of the
  system information payloads with conversions to and from the library's
  types, the serde helpers for clearable fields, and the registry of schema
  names (its entries hold function pointers).
