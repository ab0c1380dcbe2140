//! The platform as a whole: its processors, its interrupt model and its
//! power management timer, collected from the fixed description table and
//! the interrupt-controller table.

pub mod interrupt;
pub mod numa;
pub mod wakeup;

use crate::address::GenericAddress;
use crate::error::AcpiError;
use crate::platform::interrupt::{InterruptModel, InterruptModelView, IoApic};
use crate::error::MadtError;
use crate::platform::wakeup::ApWakeup;
use crate::sdt::fadt::{Fadt, PowerProfile, FADT_FIXED_SIZE};
use crate::sdt::madt::{first_mailbox, madt_entries, Madt, MADT_FIXED_SIZE};
use crate::sdt::{table_bytes, Signature};
use crate::tables::AcpiTables;
use vstd::prelude::*;

verus! {

#[derive(Clone, Copy, Debug, PartialEq, Eq, Structural)]
pub enum ProcessorState {
    /// A processor in this state is unusable, and you must not attempt to bring it up.
    Disabled,
    /// A processor waiting for a SIPI (Startup Inter-processor Interrupt) is currently not active,
    /// but may be brought up.
    WaitingForSipi,
    /// A Running processor is currently brought up and running code.
    Running,
}

#[derive(Clone, Copy, Debug, PartialEq, Eq, Structural)]
pub struct Processor {
    /// Corresponds to the `_UID` object of the processor's `Device`, or the `ProcessorId` field of the `Processor`
    /// object, in AML.
    pub processor_uid: u32,
    /// The ID of the local APIC of the processor. Will be less than `256` if the APIC is being used, but can be
    /// greater than this if the X2APIC is being used.
    pub local_apic_id: u32,
    /// The state of this processor. Check that the processor is not `Disabled` before attempting to bring it up!
    pub state: ProcessorState,
    /// Whether this processor is the Bootstrap Processor (BSP), or an Application Processor (AP).
    /// When the bootloader is entered, the BSP is the only processor running code. To run code on
    /// more than one processor, you need to "bring up" the APs.
    pub is_ap: bool,
}

#[derive(Debug, Clone)]
pub struct ProcessorInfo {
    pub boot_processor: Processor,
    /// Application processors should be brought up in the order they're defined in this list.
    pub application_processors: Vec<Processor>,
}

/// What a `ProcessorInfo` holds, as plain values.
pub struct ProcessorInfoView {
    pub boot_processor: Processor,
    pub application_processors: Seq<Processor>,
}

/// Information about the ACPI Power Management Timer (ACPI PM Timer).
#[derive(Clone, Copy, Debug, PartialEq, Eq, Structural)]
pub struct PmTimer {
    /// A generic address to the register block of ACPI PM Timer.
    pub base: GenericAddress,
    /// This field is `true` if the hardware supports 32-bit timer, and `false` if the hardware supports 24-bit timer.
    pub supports_32bit: bool,
}

/// `PlatformInfo` allows the collection of some basic information about the platform from some of the fixed-size
/// tables in a nice way. It requires access to the `FADT` and `MADT`. It is the easiest way to get information
/// about the processors and interrupt controllers on a platform.
#[derive(Debug, Clone)]
pub struct PlatformInfo {
    pub power_profile: PowerProfile,
    pub interrupt_model: InterruptModel,
    /// On `x86_64` platforms that support the APIC, the processor topology must also be inferred from the
    /// interrupt model. That information is stored here, if present.
    pub processor_info: Option<ProcessorInfo>,
    pub pm_timer: Option<PmTimer>,
}

/// What a `PlatformInfo` holds, as plain values.
pub struct PlatformInfoView {
    pub power_profile: PowerProfile,
    pub interrupt_model: InterruptModelView,
    pub processor_info: Option<ProcessorInfoView>,
    pub pm_timer: Option<PmTimer>,
}

/// The vectors that a `PlatformInfo` is built in. The caller decides where
/// they come from; what they hold when they are handed over is discarded.
pub struct PlatformStorage {
    pub application_processors: Vec<Processor>,
    pub io_apics: Vec<IoApic>,
}

impl View for ProcessorInfo {
    type V = ProcessorInfoView;

    open spec fn view(&self) -> ProcessorInfoView {
        ProcessorInfoView {
            boot_processor: self.boot_processor,
            application_processors: self.application_processors@,
        }
    }
}

impl View for PlatformInfo {
    type V = PlatformInfoView;

    open spec fn view(&self) -> PlatformInfoView {
        PlatformInfoView {
            power_profile: self.power_profile,
            interrupt_model: self.interrupt_model@,
            processor_info: match self.processor_info {
                Some(info) => Some(info@),
                None => None,
            },
            pm_timer: self.pm_timer,
        }
    }
}

impl PlatformStorage {
    /// Fresh, empty vectors.
    pub fn new() -> (storage: Self)
        ensures
            storage.application_processors@.len() == 0,
            storage.io_apics@.len() == 0,
    {
        PlatformStorage { application_processors: Vec::new(), io_apics: Vec::new() }
    }
}

impl ProcessorInfo {
    pub fn new_in(boot_processor: Processor, application_processors: Vec<Processor>) -> (info: Self)
        ensures
            info.boot_processor == boot_processor,
            info.application_processors == application_processors,
    {
        Self { boot_processor, application_processors }
    }
}

impl PmTimer {
    /// The timer that a fixed description table describes.
    pub open spec fn described_by(fadt: Fadt) -> Result<Option<PmTimer>, AcpiError> {
        match fadt.timer_block() {
            Ok(Some(base)) => Ok(Some(PmTimer { base, supports_32bit: (fadt.flags >> 8) & 1 == 1 })),
            Ok(None) => Ok(None),
            Err(e) => Err(e),
        }
    }

    /// The power management timer of the platform, if it has one. The
    /// width of the counter is taken from the fixed feature flags as it
    /// stands there.
    pub fn new(fadt: &Fadt) -> (timer: Result<Option<PmTimer>, AcpiError>)
        ensures
            timer == Self::described_by(*fadt),
    {
        match fadt.pm_timer_block() {
            Ok(Some(base)) => Ok(
                Some(PmTimer { base, supports_32bit: fadt.pm_timer_is_32_bit() }),
            ),
            Ok(None) => Ok(None),
            Err(e) => Err(e),
        }
    }
}

impl PlatformInfo {
    /// What the tables say about the platform, given the regions in which
    /// the fixed description table and the interrupt-controller table
    /// were found. Both tables are needed; the fixed one is asked for first.
    pub open spec fn described_by(fadt: Option<Seq<u8>>, madt: Option<Seq<u8>>) -> Result<
        PlatformInfoView,
        AcpiError,
    > {
        match fadt {
            None => Err(AcpiError::TableNotFound(Signature::FADT)),
            Some(fadt_region) => match madt {
                None => Err(AcpiError::TableNotFound(Signature::MADT)),
                Some(madt_region) => match PmTimer::described_by(Fadt::decoded(fadt_region)) {
                    Err(e) => Err(e),
                    Ok(pm_timer) => Ok(
                        PlatformInfoView {
                            power_profile: PowerProfile::decoded(fadt_region[45]),
                            interrupt_model: InterruptModel::described_by(madt_region),
                            processor_info: interrupt::processor_info_of(madt_region),
                            pm_timer,
                        },
                    ),
                },
            },
        }
    }

    /// Collects the platform information into fresh vectors.
    pub fn new(tables: &AcpiTables) -> (info: Result<Self, AcpiError>)
        ensures
            match info {
                Ok(info) => Ok::<PlatformInfoView, AcpiError>(info@),
                Err(e) => Err(e),
            } == Self::described_by(
                tables.region_of(Signature::FADT, FADT_FIXED_SIZE as nat),
                tables.region_of(Signature::MADT, MADT_FIXED_SIZE as nat),
            ),
    {
        Self::new_in(tables, PlatformStorage::new())
    }

    /// Collects the platform information into the vectors of `storage`.
    pub fn new_in(tables: &AcpiTables, storage: PlatformStorage) -> (info: Result<Self, AcpiError>)
        ensures
            match info {
                Ok(info) => Ok::<PlatformInfoView, AcpiError>(info@),
                Err(e) => Err(e),
            } == Self::described_by(
                tables.region_of(Signature::FADT, FADT_FIXED_SIZE as nat),
                tables.region_of(Signature::MADT, MADT_FIXED_SIZE as nat),
            ),
    {
        let fadt = match tables.find_table::<Fadt>() {
            Some(fadt) => fadt,
            None => {
                return Err(AcpiError::TableNotFound(Signature::FADT));
            },
        };
        let power_profile = fadt.power_profile();
        let (interrupt_model, processor_info) = match InterruptModel::new_in(tables, storage) {
            Ok(pair) => pair,
            Err(e) => {
                return Err(e);
            },
        };
        let pm_timer = match PmTimer::new(&fadt) {
            Ok(timer) => timer,
            Err(e) => {
                return Err(e);
            },
        };
        Ok(PlatformInfo { power_profile, interrupt_model, processor_info, pm_timer })
    }
}

/// The handshake that a request to wake a processor starts, given the
/// region in which the interrupt-controller table was found. The table is
/// needed, and it must name a wakeup mailbox.
pub open spec fn wakeup_for(
    madt: Option<Seq<u8>>,
    apic_id: u32,
    wakeup_vector: u64,
    timeout_loops: u64,
) -> Result<ApWakeup, AcpiError> {
    match madt {
        None => Err(AcpiError::TableNotFound(Signature::MADT)),
        Some(region) => match first_mailbox(
            madt_entries(table_bytes(region), MADT_FIXED_SIZE as int),
        ) {
            None => Err(AcpiError::InvalidMadt(MadtError::NoWakeupMailbox)),
            Some(mailbox_address) => Ok(
                ApWakeup::fresh(mailbox_address, apic_id, wakeup_vector, timeout_loops),
            ),
        },
    }
}

/// Wakes up Application Processors (APs) using the Multiprocessor Wakeup Mailbox mechanism.
///
/// This looks up the mailbox and sets up the handshake with the processor
/// `apic_id`, which is to start running at `wakeup_vector`. The handshake
/// itself is a sequence of accesses to the mailbox, which the caller
/// performs as the returned machine asks for them; `timeout_loops` is the
/// number of times the command field is read at most while waiting for the
/// processor to respond.
///
/// For Intel processors, the execution environment is:
/// - Interrupts must be disabled.
/// - RFLAGES.IF set to 0.
/// - Long mode enabled.
/// - Paging mode is enabled and physical memory for waking vector is identity mapped (virtual address equals physical address).
/// - Waking vector must be contained within one physical page.
/// - Selectors are set to flat and otherwise not used.
pub fn wakeup_aps(tables: &AcpiTables, apic_id: u32, wakeup_vector: u64, timeout_loops: u64) -> (handshake:
    Result<ApWakeup, AcpiError>)
    ensures
        handshake == wakeup_for(
            tables.region_of(Signature::MADT, MADT_FIXED_SIZE as nat),
            apic_id,
            wakeup_vector,
            timeout_loops,
        ),
{
    let madt = match tables.find_table::<Madt>() {
        Some(madt) => madt,
        None => {
            return Err(AcpiError::TableNotFound(Signature::MADT));
        },
    };
    match madt.get_mpwk_mailbox_addr() {
        Ok(mailbox_address) => Ok(
            ApWakeup::new(mailbox_address, apic_id, wakeup_vector, timeout_loops),
        ),
        Err(e) => Err(e),
    }
}

} // verus!
