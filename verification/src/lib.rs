pub mod base_cpu;
pub mod base_memory;
pub mod bits;
pub mod fault;
pub mod m6502;
pub mod m6502_laws;
pub mod m6502_model;
pub mod m6502_operation;
pub mod memory_mapper;
pub mod memory_ram;
pub mod memory_rom;
pub mod vcs_audio;
pub mod vcs_audio_channel;
pub mod vcs_cartridge;
pub mod vcs_cartridge2k;
pub mod vcs_cartridge4k;
pub mod vcs_console;
pub mod vcs_console_type;
pub mod vcs_memory;
pub mod vcs_memory_laws;
pub mod vcs_palette;
pub mod vcs_parameters;
pub mod vcs_riot;
pub mod vcs_riot_laws;
pub mod vcs_tia;
pub mod vcs_tia_laws;
pub mod vcs_tia_model;
