# mooneye_gb

The CPU core of a Game Boy emulator (the Sharp SM83), written in Verus.

* `registers` — the register file, register pairs and the flag register.
* `bus` — the `Bus` trait that the processor drives. Every bus operation is
  recorded in a ghost log, so that contracts can say which addresses an
  instruction reads and writes, in what order, and what it does with the bytes
  that came back.
* `ram` — `RamBus`, a bus of plain memory that implements `Bus`.
* `alu` — what the arithmetic and logic operations compute, over integers.
* `semantics` — the meaning of each instruction and of one processor step, as
  relations between the processor before, the bus operations, and the
  processor after.
* `decode` — the opcode tables.
* `cpu`, `ops` — the processor and its instructions; `Cpu::execute` performs
  one step and is proved to follow `semantics::execute_spec`.
* `laws` — properties that span several operations: register and flag
  round trips, inverse rotations, stack round trips, returning from an
  interrupt, the delay of `EI`, and decimal adjustment after BCD arithmetic.

`app/` holds what formats or aborts: the register dump, and a step that
panics on `STOP` and undefined opcodes.
