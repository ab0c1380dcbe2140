//! The NUMA layout of the platform: which processors and which memory
//! ranges lie in which proximity domain, and how far the domains are from
//! each other.

use crate::bits::join_halves;
use crate::bytes::le_u64;
use crate::sdt::slit::{matrix_of, DistanceMatrix, Slit, SLIT_FIXED_SIZE};
use crate::sdt::srat::{
    srat_entries, LocalApicAffinityFlags, MemoryAffinityFlags, Srat, SratEntry, SRAT_FIXED_SIZE,
};
use crate::sdt::{declared_length, table_bytes, Signature};
use crate::tables::AcpiTables;
use vstd::prelude::*;

verus! {

/// Information about the setup of NUMA (Non-Uniform Memory Architecture) resources within the
/// sytem.
#[derive(Clone, Debug)]
pub struct NumaInfo {
    pub processor_affinity: Vec<ProcessorAffinity>,
    pub memory_affinity: Vec<MemoryAffinity>,
    pub num_proximity_domains: usize,
    pub distance_matrix: Vec<u8>,
}

/// What a `NumaInfo` holds, as plain values.
pub struct NumaInfoView {
    pub processor_affinity: Seq<ProcessorAffinity>,
    pub memory_affinity: Seq<MemoryAffinity>,
    pub num_proximity_domains: usize,
    pub distance_matrix: Seq<u8>,
}

/// The vectors that a `NumaInfo` is built in. The caller decides where
/// they come from; what they hold when they are handed over is discarded.
pub struct NumaStorage {
    pub processor_affinity: Vec<ProcessorAffinity>,
    pub memory_affinity: Vec<MemoryAffinity>,
    pub distance_matrix: Vec<u8>,
}

#[derive(Clone, Copy, Debug, PartialEq, Eq, Structural)]
pub struct ProcessorAffinity {
    pub local_apic_id: u32,
    pub proximity_domain: u32,
    pub is_enabled: bool,
}

#[derive(Clone, Copy, Debug, PartialEq, Eq, Structural)]
pub struct MemoryAffinity {
    pub base_address: u64,
    pub length: u64,
    pub proximity_domain: u32,
    pub is_enabled: bool,
    pub is_hot_pluggable: bool,
    pub is_non_volatile: bool,
}

impl View for NumaInfo {
    type V = NumaInfoView;

    open spec fn view(&self) -> NumaInfoView {
        NumaInfoView {
            processor_affinity: self.processor_affinity@,
            memory_affinity: self.memory_affinity@,
            num_proximity_domains: self.num_proximity_domains,
            distance_matrix: self.distance_matrix@,
        }
    }
}

impl NumaStorage {
    /// Fresh, empty vectors.
    pub fn new() -> (storage: Self)
        ensures
            storage.processor_affinity@.len() == 0,
            storage.memory_affinity@.len() == 0,
            storage.distance_matrix@.len() == 0,
    {
        NumaStorage {
            processor_affinity: Vec::new(),
            memory_affinity: Vec::new(),
            distance_matrix: Vec::new(),
        }
    }
}

/// The processor affinity that an entry of the affinity table reports, if
/// it is an entry about a processor with a local APIC.
pub open spec fn processor_affinity_of(entry: SratEntry) -> Option<ProcessorAffinity> {
    match entry {
        SratEntry::LocalApicAffinity(entry) => Some(
            ProcessorAffinity {
                local_apic_id: entry.apic_id as u32,
                proximity_domain: entry.proximity_domain_value() as u32,
                is_enabled: entry.flags.bits & 1 == 1,
            },
        ),
        SratEntry::LocalApicX2Affinity(entry) => Some(
            ProcessorAffinity {
                local_apic_id: entry.x2apic_id,
                proximity_domain: entry.proximity_domain,
                is_enabled: entry.flags.bits & 1 == 1,
            },
        ),
        _ => None,
    }
}

/// The memory affinity that an entry of the affinity table reports, if it
/// is an entry about a memory range.
pub open spec fn memory_affinity_of(entry: SratEntry) -> Option<MemoryAffinity> {
    match entry {
        SratEntry::MemoryAffinity(entry) => Some(
            MemoryAffinity {
                base_address: join_halves(entry.base_address_low, entry.base_address_high),
                length: join_halves(entry.length_low, entry.length_high),
                proximity_domain: entry.proximity_domain,
                is_enabled: entry.flags.bits & 1 == 1,
                is_hot_pluggable: entry.flags.bits & 2 == 2,
                is_non_volatile: entry.flags.bits & 4 == 4,
            },
        ),
        _ => None,
    }
}

/// The processor affinities that a sequence of entries reports, in the
/// order of the entries.
pub open spec fn processor_affinities(entries: Seq<SratEntry>) -> Seq<ProcessorAffinity>
    decreases entries.len(),
{
    if entries.len() == 0 {
        Seq::empty()
    } else {
        let before = processor_affinities(entries.drop_last());
        match processor_affinity_of(entries.last()) {
            Some(affinity) => before.push(affinity),
            None => before,
        }
    }
}

/// The memory affinities that a sequence of entries reports, in the order
/// of the entries.
pub open spec fn memory_affinities(entries: Seq<SratEntry>) -> Seq<MemoryAffinity>
    decreases entries.len(),
{
    if entries.len() == 0 {
        Seq::empty()
    } else {
        let before = memory_affinities(entries.drop_last());
        match memory_affinity_of(entries.last()) {
            Some(affinity) => before.push(affinity),
            None => before,
        }
    }
}

impl NumaInfo {
    /// The NUMA layout that the two tables describe: the affinities out of
    /// the entries of the affinity table, the number of domains and the
    /// distance matrix out of the locality table. A table that is missing
    /// contributes nothing. `distances` holds the bytes that the locality
    /// table has behind its fixed part.
    pub open spec fn layout_of(
        entries: Seq<SratEntry>,
        locality: Option<(u64, Seq<u8>)>,
    ) -> NumaInfoView {
        NumaInfoView {
            processor_affinity: processor_affinities(entries),
            memory_affinity: memory_affinities(entries),
            num_proximity_domains: match locality {
                Some((domains, _)) => domains as usize,
                None => 0,
            },
            distance_matrix: match locality {
                Some((domains, distances)) => matrix_of(distances, domains as nat),
                None => Seq::empty(),
            },
        }
    }

    /// The NUMA layout that the tables in the given regions describe.
    pub open spec fn described_by(srat: Option<Seq<u8>>, slit: Option<Seq<u8>>) -> NumaInfoView {
        Self::layout_of(
            match srat {
                Some(region) => srat_entries(table_bytes(region), SRAT_FIXED_SIZE as int),
                None => Seq::empty(),
            },
            match slit {
                Some(region) => Some(
                    (
                        le_u64(region, 36) as u64,
                        region.subrange(SLIT_FIXED_SIZE as int, declared_length(region) as int),
                    ),
                ),
                None => None,
            },
        )
    }

    /// Collects the NUMA layout into fresh vectors.
    pub fn new(tables: AcpiTables) -> (info: NumaInfo)
        ensures
            info@ == Self::described_by(
                tables.region_of(Signature::SRAT, SRAT_FIXED_SIZE as nat),
                tables.region_of(Signature::SLIT, SLIT_FIXED_SIZE as nat),
            ),
    {
        Self::new_in(tables, NumaStorage::new())
    }

    /// Collects the NUMA layout into the vectors of `storage`. Both tables
    /// are optional: without the affinity table no affinities are
    /// reported, without the locality table no domains and no distances.
    pub fn new_in(tables: AcpiTables, storage: NumaStorage) -> (info: NumaInfo)
        ensures
            info@ == Self::described_by(
                tables.region_of(Signature::SRAT, SRAT_FIXED_SIZE as nat),
                tables.region_of(Signature::SLIT, SLIT_FIXED_SIZE as nat),
            ),
    {
        let srat = tables.find_table::<Srat>();
        let slit = tables.find_table::<Slit>();
        Self::from_tables(srat, slit, storage)
    }

    /// Collects the NUMA layout out of the two tables, as far as they are
    /// there, into the vectors of `storage`.
    pub fn from_tables(srat: Option<Srat>, slit: Option<Slit>, storage: NumaStorage) -> (info:
        NumaInfo)
        ensures
            info@ == Self::layout_of(
                match srat {
                    Some(srat) => srat.all_entries(),
                    None => Seq::empty(),
                },
                match slit {
                    Some(slit) => Some((slit.num_proximity_domains, slit.distances@)),
                    None => None,
                },
            ),
    {
        let mut processor_affinity = storage.processor_affinity;
        let mut memory_affinity = storage.memory_affinity;
        let mut distance_matrix = storage.distance_matrix;
        processor_affinity.clear();
        memory_affinity.clear();
        distance_matrix.clear();

        if let Some(srat) = srat {
            let mut iter = srat.entries();
            let ghost all = srat.all_entries();
            let ghost mut seen: Seq<SratEntry> = Seq::empty();
            loop
                invariant
                    seen + iter@ == all,
                    processor_affinity@ == processor_affinities(seen),
                    memory_affinity@ == memory_affinities(seen),
                ensures
                    iter@.len() == 0,
                decreases iter@.len(),
            {
                let ghost before = iter@;
                let entry = match iter.next() {
                    Some(entry) => entry,
                    None => {
                        assert(iter@ =~= before);
                        break ;
                    },
                };
                proof {
                    let grown = seen.push(entry);
                    assert(grown + iter@ == all) by {
                        assert(grown + before.drop_first() =~= seen + before);
                    }
                    assert(grown.drop_last() =~= seen);
                    assert(grown.last() == entry);
                    seen = grown;
                }
                match entry {
                    SratEntry::LocalApicAffinity(entry) => processor_affinity.push(
                        ProcessorAffinity {
                            local_apic_id: entry.apic_id as u32,
                            proximity_domain: entry.proximity_domain(),
                            is_enabled: entry.flags.contains(LocalApicAffinityFlags::ENABLED),
                        },
                    ),
                    SratEntry::LocalApicX2Affinity(entry) => processor_affinity.push(
                        ProcessorAffinity {
                            local_apic_id: entry.x2apic_id,
                            proximity_domain: entry.proximity_domain,
                            is_enabled: entry.flags.contains(LocalApicAffinityFlags::ENABLED),
                        },
                    ),
                    SratEntry::MemoryAffinity(entry) => memory_affinity.push(
                        MemoryAffinity {
                            base_address: entry.base_address(),
                            length: entry.length(),
                            proximity_domain: entry.proximity_domain,
                            is_enabled: entry.flags.contains(MemoryAffinityFlags::ENABLED),
                            is_hot_pluggable: entry.flags.contains(
                                MemoryAffinityFlags::HOT_PLUGGABLE,
                            ),
                            is_non_volatile: entry.flags.contains(MemoryAffinityFlags::NON_VOLATILE),
                        },
                    ),
                    _ => (),
                }
            }
            assert(seen =~= seen + iter@);
        }
        let num_proximity_domains = if let Some(slit) = slit {
            distance_matrix.extend_from_slice(slit.matrix());
            assert(distance_matrix@ =~= slit.matrix_view());
            #[verifier::truncate]
            (slit.num_proximity_domains as usize)
        } else {
            0
        };

        NumaInfo { processor_affinity, memory_affinity, num_proximity_domains, distance_matrix }
    }

    /// The distances between the proximity domains.
    pub fn distance_matrix(&self) -> (matrix: DistanceMatrix<'_>)
        ensures
            matrix.num_proximity_domains == self.num_proximity_domains,
            matrix.matrix@ == self.distance_matrix@,
    {
        DistanceMatrix {
            num_proximity_domains: self.num_proximity_domains as u64,
            matrix: self.distance_matrix.as_slice(),
        }
    }
}

/// The distance matrix of a NUMA layout has one byte for each pair of
/// domains whenever the locality table declares that many bytes behind
/// its fixed part, and is empty otherwise.
pub proof fn lemma_distance_matrix_is_square_or_empty(
    entries: Seq<SratEntry>,
    domains: u64,
    distances: Seq<u8>,
)
    ensures
        ({
            let layout = NumaInfo::layout_of(entries, Some((domains, distances)));
            layout.distance_matrix.len() == if domains * domains <= distances.len() {
                domains * domains
            } else {
                0
            }
        }),
        NumaInfo::layout_of(entries, None).distance_matrix.len() == 0,
        NumaInfo::layout_of(entries, None).num_proximity_domains == 0,
{
}

/// Affinities keep the order of the table: those of a first stretch of
/// entries come before those of a second stretch, each in the order that
/// it has in its own stretch.
pub proof fn lemma_affinities_keep_table_order(first: Seq<SratEntry>, second: Seq<SratEntry>)
    ensures
        processor_affinities(first + second) == processor_affinities(first) + processor_affinities(
            second,
        ),
        memory_affinities(first + second) == memory_affinities(first) + memory_affinities(second),
    decreases second.len(),
{
    if second.len() == 0 {
        assert(first + second =~= first);
        assert(processor_affinities(first) + processor_affinities(second) =~= processor_affinities(
            first,
        ));
        assert(memory_affinities(first) + memory_affinities(second) =~= memory_affinities(first));
    } else {
        let all = first + second;
        assert(all.drop_last() =~= first + second.drop_last());
        assert(all.last() == second.last());
        lemma_affinities_keep_table_order(first, second.drop_last());
        let p_first = processor_affinities(first);
        let p_rest = processor_affinities(second.drop_last());
        assert(forall|a: ProcessorAffinity| #[trigger]
            (p_first + p_rest).push(a) =~= p_first + p_rest.push(a));
        let m_first = memory_affinities(first);
        let m_rest = memory_affinities(second.drop_last());
        assert(forall|a: MemoryAffinity| #[trigger]
            (m_first + m_rest).push(a) =~= m_first + m_rest.push(a));
    }
}

} // verus!
