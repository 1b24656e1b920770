# pmi

Type definitions for the Portable Machine Image (PMI) target specs, verified
with Verus.

A PMI image is a PE file whose `.pmi.<target>` sections carry CBOR launch
recipes for a VMM. This crate models the per-target schemas (`vm`, `sev`,
`tdx`, `cca`), the `cpu:profile` attribute and the boot-vCPU register maps, and
proves the value rules the schemas pin:

- the schema `version` is accepted only when it equals the pinned value;
- `rflags` always has bit 1 set, segment attributes keep bits 12–15 clear,
  and `pstate` always selects EL1 — every value of these types, by type
  invariant;
- each target's section is `.pmi.` followed by its name;
- the x86-64 reset state satisfies every skip rule (`is_zero`,
  `rflags_is_default`) that the serde attributes in `app/` use to omit a
  register; that those attributes encode it as an empty map rests on serde;
- `Profile::new` and `Profile::from` keep the same name.

Layout:

- `src/` — the verified library (`lib.rs`, `cpu.rs`, `kind.rs`, one module per
  target, `vm/vcpu/` for the register maps, `laws.rs` for the cross-cutting
  properties).
- `app/` — the serde wire forms: one copy of each library type with the serde
  attributes of the CBOR schema and `From` in both directions; decoding calls
  the library's checks.
- `tests/` — tests of the library.
