# psx_core

The core of a PlayStation emulator written in Verus: the devices of the
machine and the logic that drives them, each with its behaviour stated as a
contract and proved.

Layout:

- `src/` — the library.
  - `cpu.rs`, `cpu_flow.rs`, `cpu_mem.rs`, `cpu_exec.rs`: the R3000A
    interpreter (ALU, branches, coprocessor 0, loads and stores with the
    load delay, exceptions and interrupts).
  - `memory_bus.rs`: the address map; loads and stores reach RAM, BIOS,
    scratchpad and the device registers; DMA transfers.
  - `gpu.rs`, `gpu_types.rs`, `renderer_msg.rs`, `renderer.rs`, `colour.rs`:
    GP0/GP1 command framing and the software rasteriser.
  - `spu.rs`, `spu_voice.rs`, `spu_dsp.rs`, `spu_reverb.rs`: the sound
    processor (ADPCM, ADSR envelopes, noise, reverb, mixing).
  - `cdrom.rs`, `cdrom_controller.rs`: disc images and the CD-ROM
    controller (commands, responses, sector reading).
  - `mdec.rs`: the macroblock decoder.
  - `timers.rs`, `irq.rs`, `scheduler.rs`, `sio.rs`, `dma.rs`, `ram.rs`,
    `scratchpad.rs`, `gte.rs`: the remaining devices.
  - `machine.rs`: what each scheduled event does; `exe.rs`: loading a
    PS-X EXE image.
  - `laws.rs`: properties that span several operations.
  - `arrayvec_specs.rs`: the `arrayvec` collections the devices use, with
    the contracts the library relies on.
- `tests/`: tests on concrete values.
- `app/`: a headless runner (files, threads, console output) and the parts
  that compute in floating point (triangle interpolation, MDEC colour
  conversion).
