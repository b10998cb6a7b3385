//! The power-on configuration: a fixed run of single-bit updates.

use crate::access::{lemma_update_sequence_step, update_sequence, BitUpdate};
use crate::backup::{SWOFF_BIT, VDETOFF_BIT};
use crate::control::{AIE_BIT, TIE_BIT, UIE_BIT};
use crate::driver::Rx8900;
use crate::extension::{FSEL0_BIT, FSEL1_BIT, TEST_BIT, TE_BIT};
use crate::flags::{VDET_BIT, VLF_BIT};
use crate::registers::RegisterTable;
use crate::transport::Transport;
use vstd::prelude::*;

verus! {

/// The bit updates of the power-on configuration, in the order in which
/// they are made: the timer is disabled, both output frequency selection
/// bits and the test bit are cleared, the voltage detect and voltage low
/// flags are cleared, the alarm, timer and update interrupts are disabled,
/// the voltage detector off bit is cleared, and the switch off bit is set.
pub open spec fn init_updates() -> Seq<BitUpdate> {
    seq![
        BitUpdate { register: RegisterTable::CompatibleExtensionRegister, bit: TE_BIT, data: false },
        BitUpdate {
            register: RegisterTable::CompatibleExtensionRegister,
            bit: FSEL0_BIT,
            data: false,
        },
        BitUpdate {
            register: RegisterTable::CompatibleExtensionRegister,
            bit: FSEL1_BIT,
            data: false,
        },
        BitUpdate {
            register: RegisterTable::CompatibleExtensionRegister,
            bit: TEST_BIT,
            data: false,
        },
        BitUpdate { register: RegisterTable::CompatibleFlagRegister, bit: VDET_BIT, data: false },
        BitUpdate { register: RegisterTable::CompatibleFlagRegister, bit: VLF_BIT, data: false },
        BitUpdate { register: RegisterTable::CompatibleControlRegister, bit: AIE_BIT, data: false },
        BitUpdate { register: RegisterTable::CompatibleControlRegister, bit: TIE_BIT, data: false },
        BitUpdate { register: RegisterTable::CompatibleControlRegister, bit: UIE_BIT, data: false },
        BitUpdate { register: RegisterTable::ExtendedBackupFunction, bit: VDETOFF_BIT, data: false },
        BitUpdate { register: RegisterTable::ExtendedBackupFunction, bit: SWOFF_BIT, data: true },
    ]
}

impl<I2C: Transport> Rx8900<I2C> {
    /// Brings the chip into its power-on configuration, one bit update
    /// after the other. The first update that fails ends the run; the
    /// updates made before it stand.
    pub fn init(&mut self) -> (outcome: Result<(), I2C::Error>)
        ensures
            update_sequence(old(self)@, init_updates(), final(self)@, outcome),
    {
        let ghost start = self@;
        let ghost updates = init_updates();
        let ghost mut before = self@;

        let updated = self.set_te(false);
        proof {
            lemma_update_sequence_step(start, updates, 0, before, self@, updated);
            before = self@;
        }
        updated?;

        let updated = self.set_fsel0(false);
        proof {
            lemma_update_sequence_step(start, updates, 1, before, self@, updated);
            before = self@;
        }
        updated?;

        let updated = self.set_fsel1(false);
        proof {
            lemma_update_sequence_step(start, updates, 2, before, self@, updated);
            before = self@;
        }
        updated?;

        let updated = self.set_test(false);
        proof {
            lemma_update_sequence_step(start, updates, 3, before, self@, updated);
            before = self@;
        }
        updated?;

        let updated = self.set_vdet();
        proof {
            lemma_update_sequence_step(start, updates, 4, before, self@, updated);
            before = self@;
        }
        updated?;

        let updated = self.set_vlf();
        proof {
            lemma_update_sequence_step(start, updates, 5, before, self@, updated);
            before = self@;
        }
        updated?;

        let updated = self.set_aie(false);
        proof {
            lemma_update_sequence_step(start, updates, 6, before, self@, updated);
            before = self@;
        }
        updated?;

        let updated = self.set_tie(false);
        proof {
            lemma_update_sequence_step(start, updates, 7, before, self@, updated);
            before = self@;
        }
        updated?;

        let updated = self.set_uie(false);
        proof {
            lemma_update_sequence_step(start, updates, 8, before, self@, updated);
            before = self@;
        }
        updated?;

        let updated = self.set_voltage_detector_off(false);
        proof {
            lemma_update_sequence_step(start, updates, 9, before, self@, updated);
            before = self@;
        }
        updated?;

        let updated = self.set_switch_off(true);
        proof {
            lemma_update_sequence_step(start, updates, 10, before, self@, updated);
        }
        updated?;
        Ok(())
    }
}

} // verus!
