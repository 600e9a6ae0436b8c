//! The generation pipeline, driven as a state machine.
//!
//! A run first collects the sixteen cluster rectangles (clustered mode
//! only), then one coordinate pair after another, each pair sampled
//! inside the region that the round-robin policy assigns to its index.
//! The caller owns the random source and the floating-point arithmetic:
//! it draws the values that [`Generator::next_pair_region`] asks for and
//! hands them back as bit patterns, together with the computed distance.
//! Everything structural is pinned down here: the draw order, the
//! region assignment, the counts, and the final ledger encoding.

use crate::ledger::encode_ledger;
use crate::ledger::ledger_bytes_of;
use crate::params::PointsDistribution;
use crate::params::RunParams;
use crate::region::full_domain;
use crate::region::make_region;
use crate::region::region_of;
use crate::region::spec_full_domain;
use crate::region::Region;
use crate::region::CLUSTER_COUNT;
use vstd::prelude::*;

verus! {

/// One generated coordinate pair, each coordinate the bit pattern of a
/// 64-bit IEEE-754 value: longitude `x0`, latitude `y0` of the first
/// point, then longitude `x1`, latitude `y1` of the second.
#[derive(Clone, Copy, Debug, PartialEq, Eq, Structural)]
pub struct Pair {
    pub x0: u64,
    pub y0: u64,
    pub x1: u64,
    pub y1: u64,
}

/// The pair built from four consecutive draws.
pub open spec fn pair_of(x0: u64, y0: u64, x1: u64, y1: u64) -> Pair {
    Pair { x0, y0, x1, y1 }
}

/// The pairs determined by a draw sequence: each group of four draws,
/// in order, becomes one pair.
pub open spec fn pairs_from(draws: Seq<u64>) -> Seq<Pair>
    decreases draws.len(),
{
    if draws.len() < 4 {
        Seq::empty()
    } else {
        let n = draws.len() as int;
        pairs_from(draws.take(n - 4)).push(
            pair_of(draws[n - 4], draws[n - 3], draws[n - 2], draws[n - 1]),
        )
    }
}

/// The cluster rectangles determined by a draw sequence: each group of
/// four draws, in order, gives the two corners of one rectangle.
pub open spec fn regions_from(draws: Seq<u64>) -> Seq<Region>
    decreases draws.len(),
{
    if draws.len() < 4 {
        Seq::empty()
    } else {
        let n = draws.len() as int;
        regions_from(draws.take(n - 4)).push(
            region_of(draws[n - 4], draws[n - 3], draws[n - 2], draws[n - 1]),
        )
    }
}

/// The region assigned to pair index `i`: the full domain under the
/// uniform distribution, and cluster `i mod 16` under the clustered one.
pub open spec fn region_for(
    distribution: PointsDistribution,
    clusters: Seq<Region>,
    i: int,
) -> Region {
    match distribution {
        PointsDistribution::Uniform => spec_full_domain(),
        PointsDistribution::Cluster => clusters[i % (CLUSTER_COUNT as int)],
    }
}

/// The run is deterministic: the clusters, the pairs and the ledger are
/// functions of the distribution mode, the sequence of values drawn from
/// the random source, and the computed distances alone. Two runs over
/// equal inputs yield equal outputs.
pub proof fn lemma_generation_deterministic(
    corner_draws_a: Seq<u64>,
    coord_draws_a: Seq<u64>,
    distances_a: Seq<u64>,
    mean_a: u64,
    corner_draws_b: Seq<u64>,
    coord_draws_b: Seq<u64>,
    distances_b: Seq<u64>,
    mean_b: u64,
)
    requires
        corner_draws_a == corner_draws_b,
        coord_draws_a == coord_draws_b,
        distances_a == distances_b,
        mean_a == mean_b,
    ensures
        regions_from(corner_draws_a) == regions_from(corner_draws_b),
        pairs_from(coord_draws_a) == pairs_from(coord_draws_b),
        ledger_bytes_of(distances_a, mean_a) == ledger_bytes_of(distances_b, mean_b),
{
}

/// Pair indices that agree modulo the cluster count are assigned the
/// same region; in particular pair 0 and pair 16 of a clustered run
/// sample inside the same rectangle.
pub proof fn lemma_round_robin_region(
    distribution: PointsDistribution,
    clusters: Seq<Region>,
    i: int,
    j: int,
)
    requires
        i % (CLUSTER_COUNT as int) == j % (CLUSTER_COUNT as int),
    ensures
        region_for(distribution, clusters, i) == region_for(distribution, clusters, j),
{
}

/// Every cluster rectangle determined by corner draws that lie inside
/// the full domain is well formed and lies inside the full domain.
pub proof fn lemma_regions_from_in_domain(draws: Seq<u64>)
    requires
        draws.len() % 4 == 0,
        forall|i: int|
            0 <= i < draws.len() ==> if i % 4 == 0 || i % 4 == 2 {
                crate::region::key_within(
                    crate::region::FULL_MIN_X_BITS,
                    #[trigger] draws[i],
                    crate::region::FULL_MAX_X_BITS,
                )
            } else {
                crate::region::key_within(
                    crate::region::FULL_MIN_Y_BITS,
                    draws[i],
                    crate::region::FULL_MAX_Y_BITS,
                )
            },
    ensures
        forall|k: int|
            0 <= k < regions_from(draws).len() ==> crate::region::region_in_domain(
                #[trigger] regions_from(draws)[k],
            ),
    decreases draws.len(),
{
    if draws.len() >= 4 {
        let n = draws.len() as int;
        let head = draws.take(n - 4);
        assert(head.len() % 4 == 0) by (nonlinear_arith)
            requires
                head.len() == draws.len() - 4,
                draws.len() % 4 == 0,
                draws.len() >= 4,
        ;
        assert forall|i: int| 0 <= i < head.len() implies if i % 4 == 0 || i % 4 == 2 {
            crate::region::key_within(
                crate::region::FULL_MIN_X_BITS,
                #[trigger] head[i],
                crate::region::FULL_MAX_X_BITS,
            )
        } else {
            crate::region::key_within(
                crate::region::FULL_MIN_Y_BITS,
                head[i],
                crate::region::FULL_MAX_Y_BITS,
            )
        } by {
            assert(head[i] == draws[i]);
        }
        lemma_regions_from_in_domain(head);
        assert((n - 4) % 4 == 0 && (n - 3) % 4 == 1 && (n - 2) % 4 == 2 && (n - 1) % 4 == 3)
            by (nonlinear_arith)
            requires
                n % 4 == 0,
                n >= 4,
        ;
        crate::region::lemma_region_of_in_domain(
            draws[n - 4],
            draws[n - 3],
            draws[n - 2],
            draws[n - 1],
        );
        let regions = regions_from(draws);
        assert(regions == regions_from(head).push(
            region_of(draws[n - 4], draws[n - 3], draws[n - 2], draws[n - 1]),
        ));
        assert forall|k: int| 0 <= k < regions.len() implies crate::region::region_in_domain(
            #[trigger] regions[k],
        ) by {
            if k < regions.len() - 1 {
                assert(regions[k] == regions_from(head)[k]);
            }
        }
    }
}

/// A finished run holds exactly `pair_count` pairs and exactly
/// `pair_count` distances, so its ledger holds exactly `pair_count + 1`
/// values.
pub proof fn lemma_complete_counts(g: &Generator)
    requires
        g.wf(),
        g.complete(),
    ensures
        g.pairs@.len() == g.pair_count,
        g.distances@.len() == g.pair_count,
{
}

/// One generation run in progress.
pub struct Generator {
    pub distribution: PointsDistribution,
    pub pair_count: usize,
    pub clusters: Vec<Region>,
    pub pairs: Vec<Pair>,
    pub distances: Vec<u64>,
    pub corner_draws: Ghost<Seq<u64>>,
    pub coord_draws: Ghost<Seq<u64>>,
}

impl Generator {
    /// The generator's bookkeeping is coherent: the clusters are exactly
    /// the ones its corner draws determine, the pairs are exactly the
    /// ones its coordinate draws determine, distances stay aligned with
    /// pairs, and no pair is taken before the clusters are complete.
    pub open spec fn wf(&self) -> bool {
        &&& self.clusters@.len() <= CLUSTER_COUNT
        &&& (self.distribution == PointsDistribution::Uniform ==> self.clusters@.len() == 0)
        &&& self.clusters@ == regions_from(self.corner_draws@)
        &&& self.corner_draws@.len() == 4 * self.clusters@.len()
        &&& self.pairs@ == pairs_from(self.coord_draws@)
        &&& self.coord_draws@.len() == 4 * self.pairs@.len()
        &&& self.distances@.len() == self.pairs@.len()
        &&& self.pairs@.len() <= self.pair_count
        &&& (self.pairs@.len() > 0 ==> !self.needs_cluster())
    }

    /// Another cluster rectangle must still be collected.
    pub open spec fn needs_cluster(&self) -> bool {
        self.distribution == PointsDistribution::Cluster && self.clusters@.len() < CLUSTER_COUNT
    }

    /// Another coordinate pair must still be collected.
    pub open spec fn needs_pair(&self) -> bool {
        !self.needs_cluster() && self.pairs@.len() < self.pair_count
    }

    /// All clusters and all pairs have been collected.
    pub open spec fn complete(&self) -> bool {
        !self.needs_cluster() && self.pairs@.len() == self.pair_count
    }

    /// Starts a run: no clusters, no pairs, no distances yet.
    pub fn new(run: RunParams) -> (g: Generator)
        ensures
            g.wf(),
            g.distribution == run.distribution,
            g.pair_count == run.pair_count,
            g.clusters@ == Seq::<Region>::empty(),
            g.pairs@ == Seq::<Pair>::empty(),
            g.distances@ == Seq::<u64>::empty(),
            g.corner_draws@ == Seq::<u64>::empty(),
            g.coord_draws@ == Seq::<u64>::empty(),
    {
        Generator {
            distribution: run.distribution,
            pair_count: run.pair_count,
            clusters: Vec::new(),
            pairs: Vec::new(),
            distances: Vec::new(),
            corner_draws: Ghost(Seq::empty()),
            coord_draws: Ghost(Seq::empty()),
        }
    }

    /// Whether the caller must draw four more corner values.
    pub fn wants_cluster(&self) -> (r: bool)
        ensures
            r == self.needs_cluster(),
    {
        self.distribution == PointsDistribution::Cluster && self.clusters.len() < CLUSTER_COUNT
    }

    /// Whether the caller must draw four more coordinates.
    pub fn wants_pair(&self) -> (r: bool)
        ensures
            r == self.needs_pair(),
    {
        !self.wants_cluster() && self.pairs.len() < self.pair_count
    }

    /// Whether the run has collected everything.
    pub fn is_complete(&self) -> (r: bool)
        ensures
            r == self.complete(),
    {
        !self.wants_cluster() && self.pairs.len() == self.pair_count
    }

    /// Records the next cluster rectangle from the four corner draws
    /// `x0, y0, x1, y1`, taken from the random source in that order.
    pub fn push_cluster(&mut self, x0: u64, y0: u64, x1: u64, y1: u64)
        requires
            old(self).wf(),
            old(self).needs_cluster(),
        ensures
            final(self).wf(),
            final(self).clusters@ == old(self).clusters@.push(region_of(x0, y0, x1, y1)),
            final(self).corner_draws@ == old(self).corner_draws@ + seq![x0, y0, x1, y1],
            final(self).distribution == old(self).distribution,
            final(self).pair_count == old(self).pair_count,
            final(self).pairs@ == old(self).pairs@,
            final(self).distances@ == old(self).distances@,
            final(self).coord_draws@ == old(self).coord_draws@,
    {
        let ghost before = self.corner_draws@;
        let region = make_region(x0, y0, x1, y1);
        self.clusters.push(region);
        proof {
            self.corner_draws@ = before + seq![x0, y0, x1, y1];
            let after = self.corner_draws@;
            assert(after.take(after.len() - 4) =~= before);
            assert(after[after.len() - 4] == x0);
            assert(after[after.len() - 3] == y0);
            assert(after[after.len() - 2] == x1);
            assert(after[after.len() - 1] == y1);
        }
    }

    /// The region assigned to the pair the caller must sample next.
    pub fn next_pair_region(&self) -> (r: Region)
        requires
            self.wf(),
            self.needs_pair(),
        ensures
            r == region_for(self.distribution, self.clusters@, self.pairs@.len() as int),
    {
        match self.distribution {
            PointsDistribution::Uniform => full_domain(),
            PointsDistribution::Cluster => self.clusters[self.pairs.len() % CLUSTER_COUNT],
        }
    }

    /// Records the next coordinate pair from the four coordinate draws
    /// `x0, y0, x1, y1`, taken from the random source in that order,
    /// together with its computed distance.
    pub fn push_pair(&mut self, x0: u64, y0: u64, x1: u64, y1: u64, distance: u64)
        requires
            old(self).wf(),
            old(self).needs_pair(),
        ensures
            final(self).wf(),
            final(self).pairs@ == old(self).pairs@.push(pair_of(x0, y0, x1, y1)),
            final(self).distances@ == old(self).distances@.push(distance),
            final(self).coord_draws@ == old(self).coord_draws@ + seq![x0, y0, x1, y1],
            final(self).distribution == old(self).distribution,
            final(self).pair_count == old(self).pair_count,
            final(self).clusters@ == old(self).clusters@,
            final(self).corner_draws@ == old(self).corner_draws@,
    {
        let ghost before = self.coord_draws@;
        self.pairs.push(Pair { x0, y0, x1, y1 });
        self.distances.push(distance);
        proof {
            self.coord_draws@ = before + seq![x0, y0, x1, y1];
            let after = self.coord_draws@;
            assert(after.take(after.len() - 4) =~= before);
            assert(after[after.len() - 4] == x0);
            assert(after[after.len() - 3] == y0);
            assert(after[after.len() - 2] == x1);
            assert(after[after.len() - 1] == y1);
        }
    }

    /// The generated pairs, in generation order.
    pub fn generated_pairs(&self) -> (r: &Vec<Pair>)
        ensures
            r@ == self.pairs@,
    {
        &self.pairs
    }

    /// The computed distances, in generation order.
    pub fn computed_distances(&self) -> (r: &Vec<u64>)
        ensures
            r@ == self.distances@,
    {
        &self.distances
    }

    /// Encodes the binary ledger of a finished run: every distance in
    /// order, then the trailing mean, eight little-endian bytes each.
    pub fn ledger(&self, mean: u64) -> (r: Vec<u8>)
        requires
            self.wf(),
            self.complete(),
        ensures
            r@ == ledger_bytes_of(self.distances@, mean),
            r@.len() == 8 * (self.pair_count + 1),
    {
        encode_ledger(&self.distances, mean)
    }
}

} // verus!
