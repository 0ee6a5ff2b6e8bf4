# fleet-manifest

The fleet's shared memory of itself: what each vessel owns, what it trusts,
and how it communicates, with its contracts proved by Verus.

- `src/vessel.rs`: vessels, their status, the fixed-point trust weight
  (`TRUST_SCALE` = 1.00) and its Pythagorean48 direction index.
- `src/manifest.rs`: the manifest, trust filtering, the current fleet and the
  Laman rigidity check (E = 2V - 3).
- `src/repo.rs`: the repository inventory.
- `src/timestamp.rs`: the decimal Unix-time stamp of a manifest.
- `app/`: serde copies of the types, in the JSON shape with trust as a
  fraction, and the float conversions.
