//! The interrupt controller: the enabled (IE) and pending (IF) bitmaps and
//! the priority-ordered query for the first interrupt to service.

use vstd::prelude::*;

verus! {

/// Address of the enabled-interrupts register (IE).
pub const ENABLED_INTERRUPTS_ADDR: u16 = 0xFFFF;

/// Address of the pending-interrupts register (IF).
pub const PENDING_INTERRUPTS_ADDR: u16 = 0xFF0F;

#[derive(Clone, Copy, PartialEq, Eq, Structural)]
pub enum InterruptKind {
    VBLANK,
    LCDSTAT,
    TIMER,
    SERIAL,
    JOYPAD,
}

/// One 5-bit interrupt bitmap, one boolean per kind. Bit i of the
/// memory-mapped byte corresponds to the kind with priority i.
#[derive(Clone, Copy, PartialEq, Eq, Structural)]
pub struct InterruptRegister {
    pub vblank: bool,
    pub lcdstat: bool,
    pub timer: bool,
    pub serial: bool,
    pub joypad: bool,
}

impl InterruptRegister {
    /// The flag stored for one kind.
    pub open spec fn spec_get(self, kind: InterruptKind) -> bool {
        match kind {
            InterruptKind::VBLANK => self.vblank,
            InterruptKind::LCDSTAT => self.lcdstat,
            InterruptKind::TIMER => self.timer,
            InterruptKind::SERIAL => self.serial,
            InterruptKind::JOYPAD => self.joypad,
        }
    }

    /// The bitmap with the flag of one kind replaced.
    pub open spec fn with_kind(self, kind: InterruptKind, value: bool) -> InterruptRegister {
        match kind {
            InterruptKind::VBLANK => InterruptRegister { vblank: value, ..self },
            InterruptKind::LCDSTAT => InterruptRegister { lcdstat: value, ..self },
            InterruptKind::TIMER => InterruptRegister { timer: value, ..self },
            InterruptKind::SERIAL => InterruptRegister { serial: value, ..self },
            InterruptKind::JOYPAD => InterruptRegister { joypad: value, ..self },
        }
    }

    /// The bitmap materialised as the memory-mapped byte: bit 0 VBLANK,
    /// bit 1 LCD-STAT, bit 2 TIMER, bit 3 SERIAL, bit 4 JOYPAD.
    pub open spec fn spec_value(self) -> u8 {
        ((if self.vblank {
            1int
        } else {
            0int
        }) + (if self.lcdstat {
            2int
        } else {
            0int
        }) + (if self.timer {
            4int
        } else {
            0int
        }) + (if self.serial {
            8int
        } else {
            0int
        }) + (if self.joypad {
            16int
        } else {
            0int
        })) as u8
    }

    /// The bitmap decoded from the memory-mapped byte; bits 7..5 are ignored.
    pub open spec fn spec_of_byte(value: u8) -> InterruptRegister {
        InterruptRegister {
            vblank: value % 2 == 1,
            lcdstat: value / 2 % 2 == 1,
            timer: value / 4 % 2 == 1,
            serial: value / 8 % 2 == 1,
            joypad: value / 16 % 2 == 1,
        }
    }

    pub fn new() -> (r: InterruptRegister)
        ensures
            r == (InterruptRegister {
                vblank: false,
                lcdstat: false,
                timer: false,
                serial: false,
                joypad: false,
            }),
    {
        InterruptRegister { vblank: false, lcdstat: false, timer: false, serial: false, joypad: false }
    }

    pub fn set(&mut self, kind: &InterruptKind, value: bool)
        ensures
            *final(self) == old(self).with_kind(*kind, value),
    {
        match kind {
            InterruptKind::VBLANK => self.vblank = value,
            InterruptKind::LCDSTAT => self.lcdstat = value,
            InterruptKind::TIMER => self.timer = value,
            InterruptKind::SERIAL => self.serial = value,
            InterruptKind::JOYPAD => self.joypad = value,
        }
    }

    pub fn get(&self, kind: &InterruptKind) -> (r: bool)
        ensures
            r == self.spec_get(*kind),
    {
        match kind {
            InterruptKind::VBLANK => self.vblank,
            InterruptKind::LCDSTAT => self.lcdstat,
            InterruptKind::TIMER => self.timer,
            InterruptKind::SERIAL => self.serial,
            InterruptKind::JOYPAD => self.joypad,
        }
    }

    /// Materialise the bitmap byte.
    pub fn byte_value(&self) -> (r: u8)
        ensures
            r == self.spec_value(),
    {
        (if self.vblank {
            1u8
        } else {
            0u8
        }) + (if self.lcdstat {
            2u8
        } else {
            0u8
        }) + (if self.timer {
            4u8
        } else {
            0u8
        }) + (if self.serial {
            8u8
        } else {
            0u8
        }) + (if self.joypad {
            16u8
        } else {
            0u8
        })
    }

    /// Decode the bitmap byte.
    pub fn of_byte(value: u8) -> (r: InterruptRegister)
        ensures
            r == InterruptRegister::spec_of_byte(value),
    {
        InterruptRegister {
            vblank: value % 2 == 1,
            lcdstat: value / 2 % 2 == 1,
            timer: value / 4 % 2 == 1,
            serial: value / 8 % 2 == 1,
            joypad: value / 16 % 2 == 1,
        }
    }
}

/// The controller: which interrupts are enabled and which are pending.
/// The IME boolean is owned by the CPU, not stored here.
pub struct Interrupts {
    pub enabled: InterruptRegister,
    pub pending: InterruptRegister,
}

/// The service-routine address of one interrupt kind.
pub open spec fn spec_isr_addr(kind: InterruptKind) -> u16 {
    match kind {
        InterruptKind::VBLANK => 0x40,
        InterruptKind::LCDSTAT => 0x48,
        InterruptKind::TIMER => 0x50,
        InterruptKind::SERIAL => 0x58,
        InterruptKind::JOYPAD => 0x60,
    }
}

impl Interrupts {
    /// The highest-priority kind that is both enabled and pending.
    /// Priority order, highest first: VBLANK, LCD-STAT, TIMER, SERIAL, JOYPAD.
    pub open spec fn spec_first_pending(self) -> Option<InterruptKind> {
        if self.enabled.vblank && self.pending.vblank {
            Some(InterruptKind::VBLANK)
        } else if self.enabled.lcdstat && self.pending.lcdstat {
            Some(InterruptKind::LCDSTAT)
        } else if self.enabled.timer && self.pending.timer {
            Some(InterruptKind::TIMER)
        } else if self.enabled.serial && self.pending.serial {
            Some(InterruptKind::SERIAL)
        } else if self.enabled.joypad && self.pending.joypad {
            Some(InterruptKind::JOYPAD)
        } else {
            None
        }
    }

    pub fn new() -> (r: Interrupts)
        ensures
            r.enabled == (InterruptRegister {
                vblank: false,
                lcdstat: false,
                timer: false,
                serial: false,
                joypad: false,
            }),
            r.pending == (InterruptRegister {
                vblank: false,
                lcdstat: false,
                timer: false,
                serial: false,
                joypad: false,
            }),
    {
        Interrupts { enabled: InterruptRegister::new(), pending: InterruptRegister::new() }
    }

    /// The memory-mapped IE byte.
    pub fn ie_value(&self) -> (r: u8)
        ensures
            r == self.enabled.spec_value(),
    {
        self.enabled.byte_value()
    }

    /// The memory-mapped IF byte.
    pub fn if_value(&self) -> (r: u8)
        ensures
            r == self.pending.spec_value(),
    {
        self.pending.byte_value()
    }

    /// A memory write to IE: replace the whole enabled bitmap.
    pub fn enable_or_disable_interrupts(&mut self, value: u8)
        ensures
            *final(self) == (Interrupts {
                enabled: InterruptRegister::spec_of_byte(value),
                ..*old(self)
            }),
    {
        self.enabled = InterruptRegister::of_byte(value);
    }

    /// A memory write to IF: replace the whole pending bitmap.
    pub fn add_interrupts(&mut self, value: u8)
        ensures
            *final(self) == (Interrupts {
                pending: InterruptRegister::spec_of_byte(value),
                ..*old(self)
            }),
    {
        self.pending = InterruptRegister::of_byte(value);
    }

    /// Find the highest-priority enabled-and-pending interrupt, clear its
    /// pending bit, and return its service-routine address; `None` and no
    /// change when there is no such interrupt.
    pub fn isr_of_first_pending(&mut self) -> (r: Option<u16>)
        ensures
            match old(self).spec_first_pending() {
                Some(kind) => {
                    &&& r == Some(spec_isr_addr(kind))
                    &&& *final(self) == (Interrupts {
                        pending: old(self).pending.with_kind(kind, false),
                        ..*old(self)
                    })
                },
                None => {
                    &&& r is None
                    &&& *final(self) == *old(self)
                },
            },
    {
        if self.enabled.vblank && self.pending.vblank {
            self.pending.vblank = false;
            Some(0x40)
        } else if self.enabled.lcdstat && self.pending.lcdstat {
            self.pending.lcdstat = false;
            Some(0x48)
        } else if self.enabled.timer && self.pending.timer {
            self.pending.timer = false;
            Some(0x50)
        } else if self.enabled.serial && self.pending.serial {
            self.pending.serial = false;
            Some(0x58)
        } else if self.enabled.joypad && self.pending.joypad {
            self.pending.joypad = false;
            Some(0x60)
        } else {
            None
        }
    }
}

} // verus!
