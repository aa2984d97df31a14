//! Firmware-flashing page: which ELF file to write to which chip.
use std::path::PathBuf;
use std::sync::mpsc::Sender;
use vstd::prelude::*;
use vstd::string::StringExecFns;

verus! {

#[verifier::external_type_specification]
#[verifier::external_body]
pub struct ExPathBuf(PathBuf);

/// Calls `PathBuf::clone`, which copies the path; the copy is stated to
/// equal the original.
#[verifier::external_body]
fn copy_path(p: &PathBuf) -> (c: PathBuf)
    ensures
        c == *p,
{
    p.clone()
}

/// A request to the flashing worker.
pub enum FlashCommand {
    Start { path: PathBuf, chip: String },
}

/// The chip selected when the page opens.
pub open spec fn default_chip() -> Seq<char> {
    "STM32F429ZIT6"@
}

pub struct FlashPage {
    pub tx_command: Sender<FlashCommand>,
    pub selected_file: Option<PathBuf>,
    pub chip_name: String,
}

impl FlashPage {
    /// No file chosen yet; the default chip.
    pub fn new(tx_command: Sender<FlashCommand>) -> (page: Self)
        ensures
            page.tx_command == tx_command,
            page.selected_file is None,
            page.chip_name@ == default_chip(),
    {
        FlashPage {
            tx_command,
            selected_file: None,
            chip_name: String::from_str("STM32F429ZIT6"),
        }
    }

    /// The request that the "Flash memory" button sends: available when a
    /// file is chosen and the worker is not busy.
    pub fn flash_request(&self, busy: bool) -> (cmd: Option<FlashCommand>)
        ensures
            match self.selected_file {
                Some(p) => if busy {
                    cmd is None
                } else {
                    cmd matches Some(FlashCommand::Start { path, chip }) && path == p && chip@
                        == self.chip_name@
                },
                None => cmd is None,
            },
    {
        if busy {
            return None;
        }
        match &self.selected_file {
            Some(p) => Some(FlashCommand::Start { path: copy_path(p), chip: self.chip_name.clone() }),
            None => None,
        }
    }
}

} // verus!
