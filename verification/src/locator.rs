//! Locating the three watched memory cells inside the target module. Each
//! cell is found by scanning the module image for a fixed byte signature,
//! stepping to the displacement field of the matched instruction (the
//! probe), reading a 32-bit signed displacement there, and adding it to the
//! address just past the field. The completion-flag signature additionally
//! steps one byte further to a companion byte of the scanned flag. The host
//! glue performs the scan and the displacement read; the arithmetic that
//! turns hit and displacement into an absolute address is proved here.

use vstd::prelude::*;

use crate::scanner::Signature;

verus! {

/// The three absolute addresses watched during an attached session:
/// current level id, game status, and the level-completion flag. They are
/// resolved once per attach and stay valid until the process goes away.
pub struct WatchedAddresses {
    pub level_id: u64,
    pub game_status: u64,
    pub level_complete_flag: u64,
}

/// How one watched cell is located: the signature to scan for, where the
/// displacement field sits relative to the scan hit, how far past the probe
/// the displacement is relative to, and a trailing byte adjustment applied
/// after the indirection.
pub struct SignaturePlan {
    pub signature: Signature,
    pub probe_offset: u64,
    pub tail: u64,
    pub final_adjust: u64,
}

impl SignaturePlan {
    /// The probe address of a scan hit: where the host reads the 32-bit
    /// displacement.
    pub open spec fn probe_spec(self, hit: int) -> int {
        hit + self.probe_offset
    }

    /// The absolute address the plan resolves to, given the scan hit and
    /// the displacement read at the probe.
    pub open spec fn target_spec(self, probe: int, disp: int) -> int {
        probe + self.tail + disp + self.final_adjust
    }

    /// Steps from the scan hit to the probe address, or `None` when the
    /// step leaves the 64-bit address space.
    pub fn probe(&self, hit: u64) -> (r: Option<u64>)
        ensures
            r matches Some(a) ==> a == self.probe_spec(hit as int),
            r is None <==> self.probe_spec(hit as int) > u64::MAX,
    {
        hit.checked_add(self.probe_offset)
    }

    /// Resolves the displacement indirection: the target is the address
    /// just past the displacement field (`probe + tail`) plus the signed
    /// displacement, plus the plan's trailing adjustment; `None` when that
    /// leaves the 64-bit address space.
    pub fn target(&self, probe: u64, disp: i32) -> (r: Option<u64>)
        ensures
            r matches Some(a) ==> a == self.target_spec(probe as int, disp as int),
            r is None <==> !(0 <= self.target_spec(probe as int, disp as int) <= u64::MAX),
    {
        let t: i128 = probe as i128 + self.tail as i128 + disp as i128 + self.final_adjust as i128;
        if 0 <= t && t <= u64::MAX as i128 {
            Some(t as u64)
        } else {
            None
        }
    }
}

/// The signature locating the current-level-id cell. Its displacement
/// field sits 8 bytes into the match and is relative to the 4 bytes just
/// past itself.
pub fn level_id_plan() -> (p: SignaturePlan)
    ensures
        p.signature@ == seq![
            Some(0x0Fu8), Some(0x85u8), None, None, None, None,
            Some(0x8Bu8), Some(0x05u8), None, None, None, None,
            Some(0xB9u8),
        ],
        p.probe_offset == 8,
        p.tail == 4,
        p.final_adjust == 0,
{
    let mut m: Vec<Option<u8>> = Vec::new();
    m.push(Some(0x0F));
    m.push(Some(0x85));
    m.push(None);
    m.push(None);
    m.push(None);
    m.push(None);
    m.push(Some(0x8B));
    m.push(Some(0x05));
    m.push(None);
    m.push(None);
    m.push(None);
    m.push(None);
    m.push(Some(0xB9));
    let signature = Signature::new(m);
    proof {
        assert(signature@ =~= seq![
            Some(0x0Fu8), Some(0x85u8), None, None, None, None,
            Some(0x8Bu8), Some(0x05u8), None, None, None, None,
            Some(0xB9u8),
        ]);
    }
    SignaturePlan { signature, probe_offset: 8, tail: 4, final_adjust: 0 }
}

/// The signature locating the game-status cell. Its displacement field
/// sits 2 bytes into the match and is relative to the 4 bytes just past
/// itself.
pub fn game_status_plan() -> (p: SignaturePlan)
    ensures
        p.signature@ == seq![
            Some(0x89u8), Some(0x05u8), None, None, None, None,
            Some(0x83u8), Some(0x0Du8), None, None, None, None,
            Some(0x01u8),
        ],
        p.probe_offset == 2,
        p.tail == 4,
        p.final_adjust == 0,
{
    let mut m: Vec<Option<u8>> = Vec::new();
    m.push(Some(0x89));
    m.push(Some(0x05));
    m.push(None);
    m.push(None);
    m.push(None);
    m.push(None);
    m.push(Some(0x83));
    m.push(Some(0x0D));
    m.push(None);
    m.push(None);
    m.push(None);
    m.push(None);
    m.push(Some(0x01));
    let signature = Signature::new(m);
    proof {
        assert(signature@ =~= seq![
            Some(0x89u8), Some(0x05u8), None, None, None, None,
            Some(0x83u8), Some(0x0Du8), None, None, None, None,
            Some(0x01u8),
        ]);
    }
    SignaturePlan { signature, probe_offset: 2, tail: 4, final_adjust: 0 }
}

/// The signature locating the level-complete screen flag. Its displacement
/// field sits 6 bytes into the match and is relative to the 5 bytes to the
/// end of the matched instruction; the watched cell is the companion byte
/// one past the resolved address.
pub fn level_complete_flag_plan() -> (p: SignaturePlan)
    ensures
        p.signature@ == seq![
            Some(0x48u8), Some(0x83u8), Some(0xECu8), None,
            Some(0xC6u8), Some(0x05u8), None, None, None, None,
            Some(0x01u8), Some(0xC6u8),
        ],
        p.probe_offset == 6,
        p.tail == 5,
        p.final_adjust == 1,
{
    let mut m: Vec<Option<u8>> = Vec::new();
    m.push(Some(0x48));
    m.push(Some(0x83));
    m.push(Some(0xEC));
    m.push(None);
    m.push(Some(0xC6));
    m.push(Some(0x05));
    m.push(None);
    m.push(None);
    m.push(None);
    m.push(None);
    m.push(Some(0x01));
    m.push(Some(0xC6));
    let signature = Signature::new(m);
    proof {
        assert(signature@ =~= seq![
            Some(0x48u8), Some(0x83u8), Some(0xECu8), None,
            Some(0xC6u8), Some(0x05u8), None, None, None, None,
            Some(0x01u8), Some(0xC6u8),
        ]);
    }
    SignaturePlan { signature, probe_offset: 6, tail: 5, final_adjust: 1 }
}

} // verus!
