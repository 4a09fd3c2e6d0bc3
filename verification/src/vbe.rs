//! Negotiation of a video mode through the VESA BIOS Extensions.
//!
//! The firmware fills fixed-size records; this module reads them, checks
//! them, and chooses the mode that fits a wanted resolution best.

use vstd::prelude::*;
use crate::bytes::{le16, le32, read16, read32};

verus! {

/// What the firmware leaves in AX after a call that succeeded.
pub const VBE_SUCCESS: u16 = 0x004f;

/// Function number: return controller information.
pub const GET_INFO: u16 = 0x4f00;

/// Function number: return mode information.
pub const GET_MODE_INFO: u16 = 0x4f01;

/// Function number: set mode.
pub const SET_MODE: u16 = 0x4f02;

/// Mode-number bit that asks for the linear framebuffer.
pub const USE_LINEAR_FRAME_BUFFER: u16 = 0x4000;

/// Value that ends the list of mode numbers.
pub const MODE_LIST_END: u16 = 0xFFFF;

/// The list of mode numbers must end before this many entries.
pub const MAX_MODES: usize = 0x100;

/// The width in pixels the boot loader asks for.
pub const TARGET_WIDTH: u16 = 1280;

/// The height in pixels the boot loader asks for.
pub const TARGET_HEIGHT: u16 = 720;

/// The bits per pixel the boot loader asks for.
pub const TARGET_DEPTH: u8 = 24;

/// Size in bytes of the controller information block.
pub const INFO_BLOCK_SIZE: usize = 512;

/// Size in bytes of a mode information block.
pub const MODE_BLOCK_SIZE: usize = 256;

/// The bytes "VESA" read as a little-endian number.
pub const VESA_SIGNATURE: u32 = 0x4153_4556;

/// The only version accepted: 3.0.
pub const VBE_VERSION_3: u16 = 0x300;

/// The capability flags expected, read as a little-endian number.
pub const EXPECTED_CAPABILITIES: u32 = 0x0000_0001;

/// Mode attribute: supported by the hardware.
pub const SUPPORTED_BY_HARDWARE: u16 = 0x01;

/// Mode attribute: the firmware can print to it.
pub const TTY_BIOS_OUT: u16 = 0x04;

/// Mode attribute: color mode.
pub const COLOR_MODE: u16 = 0x08;

/// Mode attribute: graphics mode, not text mode.
pub const GRAPHICS_MODE: u16 = 0x10;

/// Mode attribute: not compatible with VGA.
pub const NO_VGA_COMPAT: u16 = 0x20;

/// Mode attribute: windowed memory is not available.
pub const WINDOWED_MEMORY: u16 = 0x40;

/// Mode attribute: has a linear framebuffer.
pub const LINEAR_FRAME_BUFFER: u16 = 0x80;

/// The attributes a mode must have to be used.
pub const REQUIRED_ATTRIBUTES: u16 = 0xB1;

/// Memory model: packed pixel.
pub const PACKED_PIXEL: u8 = 4;

/// Memory model: direct color.
pub const DIRECT_COLOR: u8 = 6;

/// Why a negotiation step failed.
#[derive(Clone, Copy, Debug, PartialEq, Eq, Structural)]
pub enum VbeError {
    /// The mode lacks a required attribute or memory model.
    ModeNotGood,
    /// The controller block does not start with "VESA".
    SignatureNotValid,
    /// The controller is not version 3.0.
    NotVerson3,
    /// The capability flags are not the expected ones.
    BadCapabilities,
    /// The firmware did not report success in AX.
    CallFailed,
    /// A record does not have the size the firmware is bound to.
    BadBlockSize,
    /// The list of modes has no end within the cap.
    ListUnterminated,
    /// No mode qualifies.
    NoModeFound,
}

impl VbeError {
    /// The short text shown when the error is fatal.
    pub fn diagnostic(&self) -> (r: &'static str)
        ensures
            r@ == (match *self {
                VbeError::ModeNotGood => "VBE mode not usable"@,
                VbeError::SignatureNotValid => "VBE signature not valid"@,
                VbeError::NotVerson3 => "VBE version is not 3.0"@,
                VbeError::BadCapabilities => "VBE capabilities not as expected"@,
                VbeError::CallFailed => "VBE call failed"@,
                VbeError::BadBlockSize => "VBE block has the wrong size"@,
                VbeError::ListUnterminated => "Didn't hit end of modes list"@,
                VbeError::NoModeFound => "no VBE modes found"@,
            }),
    {
        match self {
            VbeError::ModeNotGood => "VBE mode not usable",
            VbeError::SignatureNotValid => "VBE signature not valid",
            VbeError::NotVerson3 => "VBE version is not 3.0",
            VbeError::BadCapabilities => "VBE capabilities not as expected",
            VbeError::CallFailed => "VBE call failed",
            VbeError::BadBlockSize => "VBE block has the wrong size",
            VbeError::ListUnterminated => "Didn't hit end of modes list",
            VbeError::NoModeFound => "no VBE modes found",
        }
    }
}

/// The firmware reported success: AL holds 0x4f and AH holds 0.
pub open spec fn call_succeeded(ax: u16) -> bool {
    ax == VBE_SUCCESS
}

/// Checks the status a VBE call left in AX.
pub fn check_vbe_ax(ax: u16) -> (r: Result<(), VbeError>)
    ensures
        r == (if call_succeeded(ax) {
            Ok::<(), VbeError>(())
        } else {
            Err::<(), VbeError>(VbeError::CallFailed)
        }),
{
    let ah: u16 = ax >> 8;
    let al: u16 = ax & 0x00ff;
    proof {
        lemma_status_halves(ax);
    }
    if al != 0x4f || ah != 0 {
        Err(VbeError::CallFailed)
    } else {
        Ok(())
    }
}

proof fn lemma_status_halves(ax: u16)
    by (bit_vector)
    ensures
        (ax & 0x00ff == 0x4f && ax >> 8 == 0) <==> ax == 0x004f,
{
}

/// The fields of the controller information block that the negotiation
/// reads.
#[derive(Clone, Copy, Debug, PartialEq, Eq, Structural)]
pub struct VesaVbeBlockDef {
    /// Bytes 0 to 3, little-endian.
    pub signature: u32,
    /// Bytes 4 and 5.
    pub version: u16,
    /// Bytes 10 to 13, little-endian.
    pub capabilities: u32,
    /// Bytes 14 to 17: where the list of mode numbers lies.
    pub video_mode_ptr: u32,
    /// Bytes 18 and 19: video memory in 64 KiB units.
    pub total_memory: u16,
}

impl VesaVbeBlockDef {
    /// The fields held in a 512-byte block.
    pub open spec fn parse(block: Seq<u8>) -> VesaVbeBlockDef {
        VesaVbeBlockDef {
            signature: le32(block, 0),
            version: le16(block, 4),
            capabilities: le32(block, 10),
            video_mode_ptr: le32(block, 14),
            total_memory: le16(block, 18),
        }
    }

    /// The first fault of the block, in the order signature, version,
    /// capabilities; none if it has none.
    pub open spec fn fault(self) -> Option<VbeError> {
        if self.signature != VESA_SIGNATURE {
            Some(VbeError::SignatureNotValid)
        } else if self.version != VBE_VERSION_3 {
            Some(VbeError::NotVerson3)
        } else if self.capabilities != EXPECTED_CAPABILITIES {
            Some(VbeError::BadCapabilities)
        } else {
            None
        }
    }

    /// Reads the block that the firmware filled. There is a result exactly
    /// when the block has 512 bytes.
    pub fn from_bytes(block: &[u8]) -> (r: Option<VesaVbeBlockDef>)
        ensures
            r == (if block@.len() == INFO_BLOCK_SIZE {
                Some(Self::parse(block@))
            } else {
                None
            }),
    {
        if block.len() != INFO_BLOCK_SIZE {
            return None;
        }
        Some(
            VesaVbeBlockDef {
                signature: read32(block, 0),
                version: read16(block, 4),
                capabilities: read32(block, 10),
                video_mode_ptr: read32(block, 14),
                total_memory: read16(block, 18),
            },
        )
    }

    /// Checks signature, version and capability flags, in that order.
    pub fn check(&self) -> (r: Result<(), VbeError>)
        ensures
            r == (match self.fault() {
                Some(e) => Err::<(), VbeError>(e),
                None => Ok::<(), VbeError>(()),
            }),
    {
        if self.signature != VESA_SIGNATURE {
            Err(VbeError::SignatureNotValid)
        } else if self.version != VBE_VERSION_3 {
            Err(VbeError::NotVerson3)
        } else if self.capabilities != EXPECTED_CAPABILITIES {
            Err(VbeError::BadCapabilities)
        } else {
            Ok(())
        }
    }

    /// Takes what the "return controller information" call left behind: the
    /// status in AX and the block. Fails on a bad status, then on a block of
    /// the wrong size, then on the first fault of the block.
    pub fn new(ax: u16, block: &[u8]) -> (r: Result<VesaVbeBlockDef, VbeError>)
        ensures
            r == (if !call_succeeded(ax) {
                Err::<VesaVbeBlockDef, VbeError>(VbeError::CallFailed)
            } else if block@.len() != INFO_BLOCK_SIZE {
                Err::<VesaVbeBlockDef, VbeError>(VbeError::BadBlockSize)
            } else {
                match Self::parse(block@).fault() {
                    Some(e) => Err::<VesaVbeBlockDef, VbeError>(e),
                    None => Ok::<VesaVbeBlockDef, VbeError>(Self::parse(block@)),
                }
            }),
    {
        match check_vbe_ax(ax) {
            Err(e) => {
                return Err(e);
            },
            Ok(_) => {},
        }
        match Self::from_bytes(block) {
            None => Err(VbeError::BadBlockSize),
            Some(parsed) => match parsed.check() {
                Err(e) => Err(e),
                Ok(_) => Ok(parsed),
            },
        }
    }
}

/// `t` is where a list of mode numbers ends: it is within the list and the
/// cap, holds the end marker, and no earlier index does.
pub open spec fn is_list_end(list: Seq<u16>, t: int) -> bool {
    &&& 0 <= t < list.len()
    &&& t < MAX_MODES
    &&& list[t] == MODE_LIST_END
    &&& forall|j: int| 0 <= j < t ==> list[j] != MODE_LIST_END
}

/// Collects the mode numbers that precede the end marker in the words read
/// from where the controller block points. Fails when no end marker lies
/// within the words given and the cap.
pub fn get_modes(list: &[u16]) -> (r: Result<Vec<u16>, VbeError>)
    ensures
        match r {
            Ok(modes) => is_list_end(list@, modes.len() as int) && modes@ == list@.take(
                modes.len() as int,
            ),
            Err(e) => e == VbeError::ListUnterminated && forall|t: int| !is_list_end(list@, t),
        },
{
    let mut modes: Vec<u16> = Vec::new();
    let mut length: usize = 0;
    while length < list.len() && length < MAX_MODES
        invariant
            length <= list@.len(),
            length <= MAX_MODES,
            modes@ == list@.take(length as int),
            forall|j: int| 0 <= j < length ==> list@[j] != MODE_LIST_END,
        decreases list@.len() - length,
    {
        let mode: u16 = list[length];
        if mode == MODE_LIST_END {
            return Ok(modes);
        }
        modes.push(mode);
        assert(modes@ =~= list@.take(length + 1));
        length += 1;
    }
    Err(VbeError::ListUnterminated)
}

/// A list of mode numbers ends in at most one place.
pub proof fn lemma_list_end_unique(list: Seq<u16>, s: int, t: int)
    requires
        is_list_end(list, s),
        is_list_end(list, t),
    ensures
        s == t,
{
}

/// The fields of a mode information block that the negotiation reads.
#[derive(Clone, Copy, Debug, PartialEq, Eq, Structural)]
pub struct VesaVbeModeDef {
    /// Bytes 0 and 1.
    pub mode_attributes: u16,
    /// Bytes 16 and 17: bytes from one row of pixels to the next.
    pub bytes_per_scan_line: u16,
    /// Bytes 18 and 19: pixels per row.
    pub width: u16,
    /// Bytes 20 and 21: rows.
    pub height: u16,
    /// Byte 25.
    pub bits_per_pixel: u8,
    /// Byte 27.
    pub memory_model: u8,
    /// Bytes 40 to 43: physical address of the linear framebuffer.
    pub framebuffer: u32,
}

impl VesaVbeModeDef {
    /// The fields held in a 256-byte block.
    pub open spec fn parse(block: Seq<u8>) -> VesaVbeModeDef {
        VesaVbeModeDef {
            mode_attributes: le16(block, 0),
            bytes_per_scan_line: le16(block, 16),
            width: le16(block, 18),
            height: le16(block, 20),
            bits_per_pixel: block[25],
            memory_model: block[27],
            framebuffer: le32(block, 40),
        }
    }

    /// The mode can be drawn to: packed-pixel or direct-color, and with all
    /// of "supported by hardware", "linear framebuffer", "graphics mode" and
    /// "no VGA compatibility".
    pub open spec fn usable(self) -> bool {
        (self.memory_model == PACKED_PIXEL || self.memory_model == DIRECT_COLOR)
            && self.mode_attributes & REQUIRED_ATTRIBUTES == REQUIRED_ATTRIBUTES
    }

    /// Takes what the "return mode information" call left behind: the status
    /// in AX and the block. Fails on a bad status, then on a block of the
    /// wrong size.
    pub fn from_bytes(ax: u16, block: &[u8]) -> (r: Result<VesaVbeModeDef, VbeError>)
        ensures
            r == (if !call_succeeded(ax) {
                Err::<VesaVbeModeDef, VbeError>(VbeError::CallFailed)
            } else if block@.len() != MODE_BLOCK_SIZE {
                Err::<VesaVbeModeDef, VbeError>(VbeError::BadBlockSize)
            } else {
                Ok::<VesaVbeModeDef, VbeError>(Self::parse(block@))
            }),
    {
        match check_vbe_ax(ax) {
            Err(e) => {
                return Err(e);
            },
            Ok(_) => {},
        }
        if block.len() != MODE_BLOCK_SIZE {
            return Err(VbeError::BadBlockSize);
        }
        Ok(
            VesaVbeModeDef {
                mode_attributes: read16(block, 0),
                bytes_per_scan_line: read16(block, 16),
                width: read16(block, 18),
                height: read16(block, 20),
                bits_per_pixel: block[25],
                memory_model: block[27],
                framebuffer: read32(block, 40),
            },
        )
    }

    /// Checks that the mode can be drawn to.
    pub fn check(&self) -> (r: Result<(), VbeError>)
        ensures
            r == (if self.usable() {
                Ok::<(), VbeError>(())
            } else {
                Err::<(), VbeError>(VbeError::ModeNotGood)
            }),
    {
        if self.is_usable() {
            Ok(())
        } else {
            Err(VbeError::ModeNotGood)
        }
    }

    /// Decides [`VesaVbeModeDef::usable`].
    pub fn is_usable(&self) -> (r: bool)
        ensures
            r == self.usable(),
    {
        let memory_model_works: bool = self.memory_model == PACKED_PIXEL || self.memory_model
            == DIRECT_COLOR;
        let required_flags: u16 = SUPPORTED_BY_HARDWARE | LINEAR_FRAME_BUFFER | NO_VGA_COMPAT
            | GRAPHICS_MODE;
        assert(SUPPORTED_BY_HARDWARE | LINEAR_FRAME_BUFFER | NO_VGA_COMPAT | GRAPHICS_MODE
            == REQUIRED_ATTRIBUTES) by (bit_vector);
        let has_flags: bool = self.mode_attributes & required_flags == required_flags;
        memory_model_works && has_flags
    }
}

/// What drawing code needs to know about the mode in use.
#[derive(Clone, Copy, Debug, PartialEq, Eq, Structural)]
pub struct FramebufferInfo {
    /// Number of the mode.
    pub mode_id: u16,
    /// Bytes from one row of pixels to the next.
    pub bytes_per_scan_line: u16,
    /// Pixels per row.
    pub width: u16,
    /// Rows.
    pub height: u16,
    /// Bits per pixel.
    pub bits_per_pixel: u8,
    /// Physical address of the first pixel.
    pub framebuffer: u32,
}

impl FramebufferInfo {
    /// The description of mode `mode_id` drawn from its information block.
    pub open spec fn of_mode(mode_id: u16, def: VesaVbeModeDef) -> FramebufferInfo {
        FramebufferInfo {
            mode_id,
            bytes_per_scan_line: def.bytes_per_scan_line,
            width: def.width,
            height: def.height,
            bits_per_pixel: def.bits_per_pixel,
            framebuffer: def.framebuffer,
        }
    }

    /// Describes mode `mode_id` for drawing, or refuses it when its block
    /// shows that it cannot be drawn to.
    pub fn from_mode(mode_id: u16, def: &VesaVbeModeDef) -> (r: Result<FramebufferInfo, VbeError>)
        ensures
            r == (if def.usable() {
                Ok::<FramebufferInfo, VbeError>(Self::of_mode(mode_id, *def))
            } else {
                Err::<FramebufferInfo, VbeError>(VbeError::ModeNotGood)
            }),
    {
        match def.check() {
            Err(e) => {
                return Err(e);
            },
            Ok(_) => {},
        }
        Ok(
            FramebufferInfo {
                mode_id,
                bits_per_pixel: def.bits_per_pixel,
                bytes_per_scan_line: def.bytes_per_scan_line,
                width: def.width,
                height: def.height,
                framebuffer: def.framebuffer,
            },
        )
    }
}

/// A mode number with the information block the firmware returned for it.
#[derive(Clone, Copy, Debug, PartialEq, Eq, Structural)]
pub struct Candidate {
    pub mode_id: u16,
    pub def: VesaVbeModeDef,
}

/// The distance between two numbers.
pub open spec fn distance(a: int, b: int) -> int {
    if a >= b {
        a - b
    } else {
        b - a
    }
}

impl Candidate {
    /// The candidate may be chosen: the mode is usable, and its depth is the
    /// wanted one if one is wanted.
    pub open spec fn qualifies(self, depth: Option<u8>) -> bool {
        &&& self.def.usable()
        &&& depth matches Some(d) ==> self.def.bits_per_pixel == d
    }

    /// How far the mode's resolution is from the wanted one: the sum of the
    /// distances in width and in height.
    pub open spec fn residual(self, width: u16, height: u16) -> int {
        distance(self.def.width as int, width as int) + distance(
            self.def.height as int,
            height as int,
        )
    }
}

/// Candidate `i` is the one to choose: it qualifies, no qualifying candidate
/// is closer to the wanted resolution, and every earlier qualifying candidate
/// is strictly farther.
pub open spec fn is_best(
    candidates: Seq<Candidate>,
    width: u16,
    height: u16,
    depth: Option<u8>,
    i: int,
) -> bool {
    &&& 0 <= i < candidates.len()
    &&& candidates[i].qualifies(depth)
    &&& forall|j: int|
        0 <= j < candidates.len() && (#[trigger] candidates[j]).qualifies(depth)
            ==> candidates[i].residual(width, height) <= candidates[j].residual(width, height)
    &&& forall|j: int|
        0 <= j < i && (#[trigger] candidates[j]).qualifies(depth) ==> candidates[i].residual(
            width,
            height,
        ) < candidates[j].residual(width, height)
}

fn abs_diff(a: u16, b: u16) -> (r: u16)
    ensures
        r == distance(a as int, b as int),
{
    if a >= b {
        a - b
    } else {
        b - a
    }
}

/// Chooses among the candidates the qualifying mode closest to the wanted
/// resolution, the first of them if several are equally close. `depth` is the
/// wanted number of bits per pixel, or `None` if any will do. Fails exactly
/// when no candidate qualifies.
pub fn get_best_mode(width: u16, height: u16, depth: Option<u8>, candidates: &Vec<Candidate>) -> (r:
    Result<FramebufferInfo, VbeError>)
    ensures
        match r {
            Ok(chosen) => exists|i: int|
                is_best(candidates@, width, height, depth, i) && chosen == FramebufferInfo::of_mode(
                    (#[trigger] candidates@[i]).mode_id,
                    candidates@[i].def,
                ),
            Err(e) => e == VbeError::NoModeFound && forall|j: int|
                0 <= j < candidates.len() ==> !(#[trigger] candidates@[j]).qualifies(depth),
        },
{
    let mut best: Option<usize> = None;
    let mut diff: u32 = 0;
    let mut chosen: FramebufferInfo = FramebufferInfo {
        mode_id: 0,
        bytes_per_scan_line: 0,
        width: 0,
        height: 0,
        bits_per_pixel: 0,
        framebuffer: 0,
    };
    let mut k: usize = 0;
    while k < candidates.len()
        invariant
            k <= candidates.len(),
            best is None ==> forall|j: int|
                0 <= j < k ==> !(#[trigger] candidates@[j]).qualifies(depth),
            best matches Some(b) ==> {
                &&& b < k
                &&& candidates@[b as int].qualifies(depth)
                &&& diff == candidates@[b as int].residual(width, height)
                &&& chosen == FramebufferInfo::of_mode(
                    candidates@[b as int].mode_id,
                    candidates@[b as int].def,
                )
                &&& forall|j: int|
                    0 <= j < k && (#[trigger] candidates@[j]).qualifies(depth) ==> diff
                        <= candidates@[j].residual(width, height)
                &&& forall|j: int|
                    0 <= j < b && (#[trigger] candidates@[j]).qualifies(depth) ==> diff
                        < candidates@[j].residual(width, height)
            },
        decreases candidates.len() - k,
    {
        let candidate: Candidate = candidates[k];
        let def: VesaVbeModeDef = candidate.def;
        let depth_fits: bool = match depth {
            None => true,
            Some(d) => def.bits_per_pixel == d,
        };
        if depth_fits {
            match FramebufferInfo::from_mode(candidate.mode_id, &def) {
                Err(_) => {},
                Ok(mode) => {
                    let mode_diff: u32 = abs_diff(def.width, width) as u32 + abs_diff(
                        def.height,
                        height,
                    ) as u32;
                    if best.is_none() || mode_diff < diff {
                        diff = mode_diff;
                        best = Some(k);
                        chosen = mode;
                    }
                },
            }
        }
        k += 1;
    }
    match best {
        None => Err(VbeError::NoModeFound),
        Some(b) => {
            assert(is_best(candidates@, width, height, depth, b as int));
            Ok(chosen)
        },
    }
}

/// At most one candidate is the one to choose, so the choice is a function of
/// the wanted resolution, the wanted depth and the candidates alone.
pub proof fn lemma_best_is_unique(
    candidates: Seq<Candidate>,
    width: u16,
    height: u16,
    depth: Option<u8>,
    i: int,
    j: int,
)
    requires
        is_best(candidates, width, height, depth, i),
        is_best(candidates, width, height, depth, j),
    ensures
        i == j,
{
    if i < j {
        assert(candidates[i].qualifies(depth));
    } else if j < i {
        assert(candidates[j].qualifies(depth));
    }
}

/// Registers to load for the "set mode" call.
#[derive(Clone, Copy, Debug, PartialEq, Eq, Structural)]
pub struct SetModeRequest {
    pub ax: u16,
    pub bx: u16,
}

/// The "set mode" call for the chosen mode: its number with the
/// linear-framebuffer bit set.
pub fn set_mode_request(mode: &FramebufferInfo) -> (r: SetModeRequest)
    ensures
        r.ax == SET_MODE,
        r.bx == mode.mode_id | USE_LINEAR_FRAME_BUFFER,
{
    SetModeRequest { ax: SET_MODE, bx: mode.mode_id | USE_LINEAR_FRAME_BUFFER }
}

/// Takes the status that the "set mode" call left in AX: the mode is in use
/// exactly when the call succeeded.
pub fn set_best_vbe_mode(ax: u16, mode: FramebufferInfo) -> (r: Result<FramebufferInfo, VbeError>)
    ensures
        r == (if call_succeeded(ax) {
            Ok::<FramebufferInfo, VbeError>(mode)
        } else {
            Err::<FramebufferInfo, VbeError>(VbeError::CallFailed)
        }),
{
    match check_vbe_ax(ax) {
        Err(e) => Err(e),
        Ok(_) => Ok(mode),
    }
}

/// The linear address of a real-mode far pointer.
pub fn linear_address(segment: u16, offset: u16) -> (r: u32)
    ensures
        r == 16 * segment + offset,
{
    16 * (segment as u32) + offset as u32
}

} // verus!
