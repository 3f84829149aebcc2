# bpf_disasm

A disassembler for eBPF programs, verified with Verus, and the ELF plumbing
that finds the program in the `.text` section of an object file.

- `src/rbpf/ebpf.rs`: the opcodes and the decoding of one 8-byte instruction slot.
- `src/rbpf/disassembler.rs`: the opcode table, the rendering of each
  instruction, `to_insn_vec` / `try_to_insn_vec`, and the proved properties
  of disassembly (slot accounting, well-formed output, concatenation).
- `src/text.rs`: decimal and hexadecimal rendering of integers, as Rust's
  `{}` and `{:#x}` render them.
- `src/elf_reader.rs`: the calls into the `elf` crate, behind trusted wrappers.
- `src/lib.rs`: `ElfFile` (load, list sections, disassemble `.text`), the
  choice of the section and the listing with jump targets.
- `app/`: the `wasm_bindgen` face that logs to the browser console.
