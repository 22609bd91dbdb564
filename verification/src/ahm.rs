//! Wire format of the select-preset command for the network-attached
//! audio-routing device. The caller opens a transient connection, writes the
//! fixed six-byte command, and may read a fixed-length acknowledgement; only
//! the byte layout is computed here, and it must be preserved bit-for-bit.

use vstd::prelude::*;

verus! {

/// Length in bytes of the acknowledgement the device sends after a preset
/// command; fewer bytes than this is a protocol error.
pub const AHM_ACK_LEN: usize = 5;

/// Smallest preset number of the one-based external interface.
pub const MIN_PRESET: u16 = 1;

/// Largest encodable preset number: bank and sub-preset must each fit in
/// seven bits.
pub const MAX_PRESET: u16 = 16384;

/// Zero-based bank byte of a one-based preset number.
pub open spec fn spec_bank(preset: u16) -> u8 {
    (((preset - 1) / 128) as u8)
}

/// Zero-based sub-preset byte of a one-based preset number.
pub open spec fn spec_sub_preset(preset: u16) -> u8 {
    (((preset - 1) % 128) as u8)
}

/// The six-byte select-preset command: protocol header, control-change
/// marker, bank-select marker, bank, program-change marker, sub-preset.
pub open spec fn spec_preset_command(preset: u16) -> Seq<u8> {
    seq![0xf0u8, 0xb0u8, 0x00u8, spec_bank(preset), 0xc0u8, spec_sub_preset(preset)]
}

/// Encodes the command that switches the device to `preset`.
pub fn encode_preset_command(preset: u16) -> (cmd: Vec<u8>)
    requires
        MIN_PRESET <= preset <= MAX_PRESET,
    ensures
        cmd@ == spec_preset_command(preset),
{
    let z_preset = preset - 1;
    let bank: u8 = (z_preset / 128) as u8;
    let ss: u8 = (z_preset % 128) as u8;
    let mut cmd: Vec<u8> = Vec::new();
    cmd.push(0xf0);
    cmd.push(0xb0);
    cmd.push(0x00);
    cmd.push(bank);
    cmd.push(0xc0);
    cmd.push(ss);
    proof {
        assert(cmd@ =~= spec_preset_command(preset));
    }
    cmd
}

} // verus!
