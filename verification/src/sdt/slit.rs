//! The System Locality Information Table: a matrix of relative distances
//! between all proximity domains.
//!
//! For `N` domains the table holds `N * N` bytes behind its fixed part.
//! The distance from domain `i` to domain `j` is the byte at `i * N + j`;
//! the distance of a domain to itself is normalised to 10.

use crate::bytes::{le_u64, read_u64};
use crate::sdt::{declared_length, table_length, AcpiTable, SdtHeader, Signature};
use vstd::prelude::*;

verus! {

/// The size of the fixed part of the table: the header and the number of domains.
pub const SLIT_FIXED_SIZE: usize = 44;

/// The locality table, as found in firmware memory.
#[derive(Clone, Copy, Debug)]
pub struct Slit<'a> {
    pub header: SdtHeader,
    pub num_proximity_domains: u64,
    /// The bytes behind the fixed part, up to the length that the header declares.
    pub distances: &'a [u8],
}

/// A distance matrix together with the number of domains that it relates.
#[derive(Clone, Copy, Debug)]
pub struct DistanceMatrix<'a> {
    pub num_proximity_domains: u64,
    pub matrix: &'a [u8],
}

/// The matrix for `domains` proximity domains that `distances` holds: its
/// first `domains * domains` bytes. Where there are not that many bytes,
/// the matrix is empty.
pub open spec fn matrix_of(distances: Seq<u8>, domains: nat) -> Seq<u8> {
    if domains * domains <= distances.len() {
        distances.subrange(0, (domains * domains) as int)
    } else {
        Seq::empty()
    }
}

/// The distance from domain `i` to domain `j` in a matrix for `domains`
/// domains. There is none where either index names no domain, or where
/// the matrix does not hold `domains * domains` bytes.
pub open spec fn distance(matrix: Seq<u8>, domains: nat, i: nat, j: nat) -> Option<u8> {
    if i < domains && j < domains && matrix.len() == domains * domains {
        Some(matrix[(i * domains + j) as int])
    } else {
        None
    }
}

/// Looks up the distance from domain `i` to domain `j`.
pub fn distance_in(matrix: &[u8], domains: u64, i: u32, j: u32) -> (entry: Option<u8>)
    ensures
        entry == distance(matrix@, domains as nat, i as nat, j as nat),
{
    let available = matrix.len();
    if i as u64 >= domains || j as u64 >= domains {
        return None;
    }
    match domains.checked_mul(domains) {
        None => None,
        Some(cells) => {
            if cells != available as u64 {
                return None;
            }
            assert(i * domains + j < domains * domains) by (nonlinear_arith)
                requires
                    0 <= i < domains,
                    0 <= j < domains,
            ;
            let index: u64 = i as u64 * domains + j as u64;
            Some(matrix[index as usize])
        },
    }
}

impl<'a> Slit<'a> {
    /// The distance matrix of this table.
    pub open spec fn matrix_view(&self) -> Seq<u8> {
        matrix_of(self.distances@, self.num_proximity_domains as nat)
    }

    /// The distance matrix: `N * N` bytes for `N` proximity domains. If the
    /// table declares fewer bytes than that behind its fixed part, the
    /// matrix is empty; nothing outside the table is read.
    pub fn matrix(&self) -> (matrix: &'a [u8])
        ensures
            matrix@ == self.matrix_view(),
            matrix@.len() == if self.num_proximity_domains * self.num_proximity_domains
                <= self.distances@.len() {
                self.num_proximity_domains * self.num_proximity_domains
            } else {
                0
            },
    {
        let available = self.distances.len();
        let cells: usize = match self.num_proximity_domains.checked_mul(self.num_proximity_domains) {
            Some(cells) => if cells <= available as u64 {
                cells as usize
            } else {
                0
            },
            None => 0,
        };
        let matrix = vstd::slice::slice_subrange(self.distances, 0, cells);
        assert(matrix@ =~= self.matrix_view());
        matrix
    }

    /// Whether the table is too short for the matrix that it announces.
    pub fn is_truncated(&self) -> (truncated: bool)
        ensures
            truncated == (self.num_proximity_domains * self.num_proximity_domains
                > self.distances@.len()),
    {
        let available = self.distances.len();
        match self.num_proximity_domains.checked_mul(self.num_proximity_domains) {
            Some(cells) => cells > available as u64,
            None => true,
        }
    }

    /// The distance from proximity domain `i` to proximity domain `j`.
    pub fn entry(&self, i: u32, j: u32) -> (entry: Option<u8>)
        ensures
            entry == distance(
                self.matrix_view(),
                self.num_proximity_domains as nat,
                i as nat,
                j as nat,
            ),
    {
        distance_in(self.matrix(), self.num_proximity_domains, i, j)
    }
}

impl<'a> DistanceMatrix<'a> {
    /// The distance from proximity domain `i` to proximity domain `j`.
    pub fn entry(&self, i: u32, j: u32) -> (entry: Option<u8>)
        ensures
            entry == distance(self.matrix@, self.num_proximity_domains as nat, i as nat, j as nat),
    {
        distance_in(self.matrix, self.num_proximity_domains, i, j)
    }
}

impl<'a> AcpiTable<'a> for Slit<'a> {
    open spec fn table_signature() -> Signature {
        Signature::SLIT
    }

    open spec fn fixed_size() -> nat {
        SLIT_FIXED_SIZE as nat
    }

    open spec fn decodes(&self, region: Seq<u8>) -> bool {
        &&& self.header == SdtHeader::decoded(region)
        &&& self.num_proximity_domains == le_u64(region, 36)
        &&& self.distances@ == region.subrange(
            SLIT_FIXED_SIZE as int,
            declared_length(region) as int,
        )
    }

    open spec fn table_header(&self) -> SdtHeader {
        self.header
    }

    fn signature() -> (signature: Signature) {
        Signature::SLIT
    }

    fn from_bytes(region: &'a [u8]) -> (table: Option<Self>) {
        match table_length(region, Signature::SLIT, SLIT_FIXED_SIZE) {
            Some(length) => {
                let header = SdtHeader::from_bytes(region).unwrap();
                Some(
                    Slit {
                        header,
                        num_proximity_domains: read_u64(region, 36),
                        distances: vstd::slice::slice_subrange(region, SLIT_FIXED_SIZE, length),
                    },
                )
            },
            None => None,
        }
    }

    fn header(&self) -> (header: &SdtHeader) {
        &self.header
    }
}

/// The matrix of a locality table has one byte for each pair of domains
/// whenever the table declares that many bytes behind its fixed part, and
/// is empty otherwise.
pub proof fn lemma_matrix_is_square_or_empty(distances: Seq<u8>, domains: nat)
    ensures
        domains * domains <= distances.len() ==> matrix_of(distances, domains).len() == domains
            * domains,
        domains * domains > distances.len() ==> matrix_of(distances, domains).len() == 0,
        forall|k: int|
            0 <= k < matrix_of(distances, domains).len() ==> matrix_of(distances, domains)[k]
                == distances[k],
{
}

/// In a complete matrix every pair of domains has a distance, and it is
/// the byte at row `i`, column `j`.
pub proof fn lemma_complete_matrix_has_all_distances(
    distances: Seq<u8>,
    domains: nat,
    i: nat,
    j: nat,
)
    requires
        domains * domains <= distances.len(),
        i < domains,
        j < domains,
    ensures
        i * domains + j < domains * domains,
        distance(matrix_of(distances, domains), domains, i, j) == Some(
            distances[(i * domains + j) as int],
        ),
{
    assert(i * domains + j < domains * domains) by (nonlinear_arith)
        requires
            0 <= i < domains,
            0 <= j < domains,
    ;
}

} // verus!
