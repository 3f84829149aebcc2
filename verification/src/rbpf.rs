//! The parts of the rbpf project that the disassembler needs: the eBPF
//! instruction encoding and the disassembler itself.
pub mod disassembler;
pub mod ebpf;
