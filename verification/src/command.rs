//! The commands of the bootloader protocol that the driver issues, with the
//! fields that it has to supply. How a command is framed on the wire is the
//! transport's business.

use vstd::prelude::*;

verus! {

/// The pins through which the flash chip is attached. The driver hands them
/// through to the attach command unread.
#[derive(Clone, Copy, Debug, PartialEq, Eq, Structural)]
pub struct SpiAttachParams {
    pub clk: u8,
    pub q: u8,
    pub d: u8,
    pub hd: u8,
    pub cs: u8,
}

/// A command of the bootloader protocol.
#[derive(Debug, PartialEq, Eq)]
pub enum Command {
    /// Attach the flash, as the ROM loader understands it.
    SpiAttach { spi_params: SpiAttachParams },
    /// Attach the flash, as the stub loader understands it.
    SpiAttachStub { spi_params: SpiAttachParams },
    /// Write `value` to the register at `address`, under `mask` if there is
    /// one.
    WriteReg { address: u32, value: u32, mask: Option<u32> },
    /// Announce a compressed write of `size` bytes at `offset`, to arrive in
    /// `blocks` blocks of at most `block_size` bytes.
    FlashDeflateBegin {
        size: u32,
        blocks: u32,
        block_size: u32,
        offset: u32,
        supports_encryption: bool,
    },
    /// One block of the compressed stream.
    FlashDeflateData { sequence: u32, pad_to: usize, pad_byte: u8, data: Vec<u8> },
    /// Close the compressed write.
    FlashDeflateEnd { reboot: bool },
}

/// What a [`Command`] is in contracts: the same fields, with the block's bytes
/// as a sequence.
pub enum CommandView {
    SpiAttach { spi_params: SpiAttachParams },
    SpiAttachStub { spi_params: SpiAttachParams },
    WriteReg { address: u32, value: u32, mask: Option<u32> },
    FlashDeflateBegin {
        size: u32,
        blocks: u32,
        block_size: u32,
        offset: u32,
        supports_encryption: bool,
    },
    FlashDeflateData { sequence: u32, pad_to: usize, pad_byte: u8, data: Seq<u8> },
    FlashDeflateEnd { reboot: bool },
}

impl View for Command {
    type V = CommandView;

    open spec fn view(&self) -> CommandView {
        match *self {
            Command::SpiAttach { spi_params } => CommandView::SpiAttach { spi_params },
            Command::SpiAttachStub { spi_params } => CommandView::SpiAttachStub { spi_params },
            Command::WriteReg { address, value, mask } => CommandView::WriteReg {
                address,
                value,
                mask,
            },
            Command::FlashDeflateBegin {
                size,
                blocks,
                block_size,
                offset,
                supports_encryption,
            } => CommandView::FlashDeflateBegin {
                size,
                blocks,
                block_size,
                offset,
                supports_encryption,
            },
            Command::FlashDeflateData { sequence, pad_to, pad_byte, data } => {
                CommandView::FlashDeflateData { sequence, pad_to, pad_byte, data: data@ }
            },
            Command::FlashDeflateEnd { reboot } => CommandView::FlashDeflateEnd { reboot },
        }
    }
}

/// The deadline under which a command runs.
#[derive(Clone, Copy, Debug, PartialEq, Eq, Structural)]
pub enum Timeout {
    /// No deadline of the command's own: the one that the transport already
    /// works under applies.
    Ambient,
    /// The fixed deadline of the command's type.
    Standard,
    /// The deadline of the command's type for work on this many bytes.
    ForSize(u32),
}

} // verus!
