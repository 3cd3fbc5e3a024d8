# helix

A libultra runtime for running N64 software on a PC, with its decisions proved in Verus.

- `src/ultra/` — the machine: the cooperative-priority scheduler (`sched`), message queues
  (`mesg`), the event table (`event`), the VI retrace clock's decisions (`vi`), the guest clock
  (`timer`), PI and cartridge DMA (`pi`, `rom`), the EEPROM image (`save`), RCP task routing
  (`rcp`) and the runtime flags and teardown order (`runtime`).
- `src/render.rs`, `src/render/capture.rs` — the render loop's dispatch, surface sizes and aspect,
  and capture requests.
- `src/gui/renderer/` — shader programs for the RDP state: the define table, GLSL and WGSL
  generation from the combiner, and sampler and blend state.
- `src/network.rs`, `src/speech.rs`, `src/utils.rs` — the TCP message stream's state, voice choice,
  and logical shifts.
- `app/` — the C ABI the game links against: host threads and locks, the clock thread, raw-memory
  copies, files, sockets and logging, calling the library for every decision.
