# fedimint_ln_common

Types and rules that the parties of the Lightning module share, verified with
Verus.

* `src/` is the verified library: inputs, outputs and consensus items with
  their texts (`transaction`, `error`, `text`), gateway registrations and
  announcements (`gateway`, `time`), route hints (`route_hints`), the stored
  form of routing fees (`fees`, `json`, `serde_routing_fees`,
  `serde_option_routing_fees`), and the check of logged operations
  (`operation`).
* `app/` gives the types serde's traits, `Display` and `std::error::Error`, and
  looks operations up. The module's decoder, the consensus encoding of its
  types and the impl of the client's `Context` trait come from traits and macros
  of `fedimint_core` and `fedimint_client`, on which this crate does not depend;
  they are left to the crates that do.
* `tests/` runs the library on concrete values.

The functions that read the clock (`anchor`, `unanchor`, `is_expired`) each have
a counterpart that is told the time and whose contract is exact.
