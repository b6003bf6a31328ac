# arcbox

The decision core of the ArcBox host daemon and guest agent, written in Verus
with each function's behaviour stated in `requires` / `ensures` and proved.

- `src/` is the verified library: the agent wire protocol (message types,
  frames, error payloads, reply checks), the guest agent's request routing and
  readiness logic, machine and VM lifecycle transitions, the machine table, machine
  provisioning plans, daemon startup ordering, USB device registry and selectors, snapshot
  pruning, address selection and the CLI's text output.
- `app/` is ordinary Rust around it: sockets and vsock transport, the agent's
  connection loop and streaming sessions, SSH key generation and the reload
  of persisted machines, protobuf payloads, the command-line parser and file-system reads. It hands the library
  plain values and acts on what comes back.
- `tests/` exercises the library on concrete values.
