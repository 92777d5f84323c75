//! The objects that the gizmo moves.
//!
//! The host keeps them in a container of its own and hands them over as
//! three lists: the positions, the rotations and the scales, target by
//! target. The engine wants one transform per target. This module turns the
//! one into the other, both ways, and keeps the order.

use vstd::prelude::*;
use crate::engine::{multiunzip3, multizip3};
use crate::error::GizmoError;
use crate::geometry::{Vector3, Vector4};

verus! {

/// Where one target stands, how it is turned and how large it is.
#[derive(Clone, Copy, Debug, PartialEq, Eq, Structural)]
pub struct TargetTransform {
    pub position: Vector3,
    pub rotation: Vector4,
    pub scale: Vector3,
}

/// The targets as the host hands them over: three lists that go together
/// item by item.
#[derive(Debug)]
pub struct Targets {
    pub positions: Vec<Vector3>,
    pub rotations: Vec<Vector4>,
    pub scales: Vec<Vector3>,
}

/// The three columns of a list of targets.
pub struct TargetsView {
    pub positions: Seq<Vector3>,
    pub rotations: Seq<Vector4>,
    pub scales: Seq<Vector3>,
}

impl TargetsView {
    /// The number of targets: the length of the list of positions.
    pub open spec fn count(self) -> nat {
        self.positions.len()
    }

    /// The three lists have one length.
    pub open spec fn aligned(self) -> bool {
        self.positions.len() == self.rotations.len() && self.positions.len() == self.scales.len()
    }

    /// One transform per target, in the lists' order.
    pub open spec fn transforms(self) -> Seq<TargetTransform>
        recommends
            self.aligned(),
    {
        Seq::new(
            self.positions.len(),
            |i: int|
                TargetTransform {
                    position: self.positions[i],
                    rotation: self.rotations[i],
                    scale: self.scales[i],
                },
        )
    }

    /// The three columns of a list of transforms.
    pub open spec fn of_transforms(transforms: Seq<TargetTransform>) -> TargetsView {
        TargetsView {
            positions: Seq::new(transforms.len(), |i: int| transforms[i].position),
            rotations: Seq::new(transforms.len(), |i: int| transforms[i].rotation),
            scales: Seq::new(transforms.len(), |i: int| transforms[i].scale),
        }
    }
}

impl View for Targets {
    type V = TargetsView;

    open spec fn view(&self) -> TargetsView {
        TargetsView {
            positions: self.positions@,
            rotations: self.rotations@,
            scales: self.scales@,
        }
    }
}

/// A copy of a list.
fn copied<T: Copy>(items: &Vec<T>) -> (copy: Vec<T>)
    ensures
        copy@ == items@,
{
    let mut copy: Vec<T> = Vec::new();
    let mut i: usize = 0;
    while i < items.len()
        invariant
            i <= items@.len(),
            copy@ == items@.take(i as int),
        decreases items@.len() - i,
    {
        copy.push(items[i]);
        i += 1;
        assert(copy@ == items@.take(i as int));
    }
    assert(items@.take(items@.len() as int) == items@);
    copy
}

impl Targets {
    /// No targets.
    pub fn new() -> (targets: Targets)
        ensures
            targets@.count() == 0,
            targets@.aligned(),
            targets@.transforms() == Seq::<TargetTransform>::empty(),
    {
        let targets = Targets { positions: Vec::new(), rotations: Vec::new(), scales: Vec::new() };
        assert(targets@.transforms() =~= Seq::<TargetTransform>::empty());
        targets
    }

    /// The number of targets.
    pub fn count(&self) -> (count: usize)
        ensures
            count == self@.count(),
    {
        self.positions.len()
    }

    /// Whether the three lists have one length.
    pub fn is_aligned(&self) -> (aligned: bool)
        ensures
            aligned == self@.aligned(),
    {
        self.positions.len() == self.rotations.len() && self.positions.len() == self.scales.len()
    }

    /// One transform per target, in order. Lists of different lengths are
    /// rejected.
    pub fn to_transforms(&self) -> (result: Result<Vec<TargetTransform>, GizmoError>)
        ensures
            self@.aligned() ==> result is Ok && result->Ok_0@ == self@.transforms(),
            !self@.aligned() ==> result == Err::<Vec<TargetTransform>, GizmoError>(
                GizmoError::TargetListsMismatch,
            ),
    {
        if !self.is_aligned() {
            return Err(GizmoError::TargetListsMismatch);
        }
        let triples = multizip3(
            copied(&self.positions),
            copied(&self.rotations),
            copied(&self.scales),
        );
        let mut transforms: Vec<TargetTransform> = Vec::new();
        let mut i: usize = 0;
        while i < triples.len()
            invariant
                i <= triples@.len(),
                triples@.len() == self@.count(),
                self@.aligned(),
                forall|k: int|
                    0 <= k < triples@.len() ==> #[trigger] triples@[k] == (
                        self.positions@[k],
                        self.rotations@[k],
                        self.scales@[k],
                    ),
                transforms@ == self@.transforms().take(i as int),
            decreases triples@.len() - i,
        {
            let (position, rotation, scale) = triples[i];
            transforms.push(TargetTransform { position, rotation, scale });
            i += 1;
            assert(transforms@ =~= self@.transforms().take(i as int));
        }
        assert(self@.transforms().take(self@.count() as int) =~= self@.transforms());
        Ok(transforms)
    }

    /// The three lists that hold the given transforms, in order.
    pub fn from_transforms(transforms: &Vec<TargetTransform>) -> (targets: Targets)
        ensures
            targets@ == TargetsView::of_transforms(transforms@),
            targets@.aligned(),
            targets@.count() == transforms@.len(),
            targets@.transforms() == transforms@,
    {
        let mut triples: Vec<(Vector3, Vector4, Vector3)> = Vec::new();
        let mut i: usize = 0;
        while i < transforms.len()
            invariant
                i <= transforms@.len(),
                triples@.len() == i,
                forall|k: int|
                    0 <= k < i ==> #[trigger] triples@[k] == (
                        transforms@[k].position,
                        transforms@[k].rotation,
                        transforms@[k].scale,
                    ),
            decreases transforms@.len() - i,
        {
            let transform = transforms[i];
            triples.push((transform.position, transform.rotation, transform.scale));
            i += 1;
        }
        let (positions, rotations, scales) = multiunzip3(triples);
        let targets = Targets { positions, rotations, scales };
        proof {
            let view = TargetsView::of_transforms(transforms@);
            assert forall|k: int| 0 <= k < transforms@.len() implies targets@.positions[k]
                == view.positions[k] && targets@.rotations[k] == view.rotations[k]
                && targets@.scales[k] == view.scales[k] by {
                assert(triples@[k] == (positions@[k], rotations@[k], scales@[k]));
            }
            assert(targets@.positions =~= view.positions);
            assert(targets@.rotations =~= view.rotations);
            assert(targets@.scales =~= view.scales);
            assert(targets@.transforms() =~= transforms@);
        }
        targets
    }

    /// Whether the targets are, item by item and bit by bit, the given
    /// transforms.
    pub fn holds(&self, transforms: &Vec<TargetTransform>) -> (same: bool)
        ensures
            same == (self@.aligned() && self@.transforms() == transforms@),
    {
        if !self.is_aligned() || self.positions.len() != transforms.len() {
            proof {
                if self@.aligned() {
                    assert(self@.transforms().len() != transforms@.len());
                }
            }
            return false;
        }
        let mut i: usize = 0;
        while i < transforms.len()
            invariant
                i <= transforms@.len(),
                self@.aligned(),
                self@.count() == transforms@.len(),
                forall|k: int| 0 <= k < i ==> self@.transforms()[k] == #[trigger] transforms@[k],
            decreases transforms@.len() - i,
        {
            let transform = transforms[i];
            if self.positions[i] != transform.position || self.rotations[i] != transform.rotation
                || self.scales[i] != transform.scale {
                assert(self@.transforms()[i as int] != transforms@[i as int]);
                return false;
            }
            i += 1;
        }
        assert(self@.transforms() =~= transforms@);
        true
    }
}

/// Splitting a list of transforms into columns and joining the columns
/// again gives the list back; joining aligned columns and splitting the
/// result gives the columns back.
pub proof fn lemma_columns_round_trip(transforms: Seq<TargetTransform>, columns: TargetsView)
    ensures
        TargetsView::of_transforms(transforms).aligned(),
        TargetsView::of_transforms(transforms).transforms() == transforms,
        columns.aligned() ==> TargetsView::of_transforms(columns.transforms()) == columns,
{
    assert(TargetsView::of_transforms(transforms).transforms() =~= transforms);
    if columns.aligned() {
        let back = TargetsView::of_transforms(columns.transforms());
        assert(back.positions =~= columns.positions);
        assert(back.rotations =~= columns.rotations);
        assert(back.scales =~= columns.scales);
    }
}

} // verus!
