//! The logic of RMGBA, a Game Boy Advance emulator front end: the remembered
//! saves of ROMs, the decisions of the emulation thread, the keyboard
//! bindings of the emulated pad and their interactive remapping, and the
//! conversion of frames into texture bytes.
use vstd::prelude::*;

pub mod emulation;
pub mod keys;
pub mod preferences;
pub mod saves;
pub mod settings;
pub mod store_format;
pub mod text;
pub mod window;

verus! {

} // verus!
