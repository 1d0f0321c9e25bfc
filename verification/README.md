# rik

The scheduling core of a small container orchestrator, verified with Verus.

- `src/` is the verified library: the keyed store, the orchestrator (node and instance
  bookkeeping, choice of a node for a new instance, decisions to stop or destroy
  instances), the message types exchanged with the controller and the node agents and
  the conversions between them, the decisions of the scheduler's event handlers, and the
  computations of the node agent (resource figures, cpu usage of a container, status of
  a workload, signal handling).
- `app/` is the program around it: configuration files, the event loop of the scheduler,
  a node agent that runs containers through the Docker engine and reads the machine's
  resources, wired together over in-process channels.
- `tests/` exercises the library on concrete values.
