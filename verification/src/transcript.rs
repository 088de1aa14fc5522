//! The Fiat-Shamir transcript the provers, the verifiers and the witness
//! extraction draw their challenges from.
use vstd::prelude::*;
use crate::arithmetic::PairingCurve;
use crate::reduce_and_fold::Scalar;

verus! {

/// One step of a transcript: a value of G1, G2 or the target group
/// appended, or a challenge drawn.
pub enum TranscriptEntry<E: PairingCurve> {
    G1(E::G1),
    G2(E::G2),
    GT(E::GT),
    Challenge,
}

/// The label of a step: its characters.
pub type TranscriptLabel = Seq<char>;

/// The steps of a transcript, in order, each with its label.
pub type TranscriptLog<E> = Seq<(TranscriptLabel, TranscriptEntry<E>)>;

/// A Fiat-Shamir transcript over the curve `E`: messages are appended under
/// a label, and challenges are drawn from everything appended so far.
/// Backends implement it with a hash. Its model is the log of what was
/// appended and drawn, with their labels; a challenge is a function of the
/// log before it and its label, which the backend defines.
pub trait Transcript<E: PairingCurve> {
    /// Every step so far, in order, each with its label.
    spec fn spec_log(&self) -> TranscriptLog<E>;

    /// The challenge drawn under `label` after the steps `log`.
    spec fn spec_challenge(log: TranscriptLog<E>, label: TranscriptLabel) -> Scalar<E>;

    /// Appends a point of G1 under `label`.
    fn append_g1(&mut self, label: &str, v: &E::G1)
        ensures
            final(self).spec_log() == old(self).spec_log().push((label@, TranscriptEntry::G1(*v))),
    ;

    /// Appends a point of G2 under `label`.
    fn append_g2(&mut self, label: &str, v: &E::G2)
        ensures
            final(self).spec_log() == old(self).spec_log().push((label@, TranscriptEntry::G2(*v))),
    ;

    /// Appends an element of the target group under `label`.
    fn append_gt(&mut self, label: &str, v: &E::GT)
        ensures
            final(self).spec_log() == old(self).spec_log().push((label@, TranscriptEntry::GT(*v))),
    ;

    /// Draws a challenge scalar under `label`.
    fn challenge_scalar(&mut self, label: &str) -> (c: Scalar<E>)
        ensures
            c == Self::spec_challenge(old(self).spec_log(), label@),
            final(self).spec_log() == old(self).spec_log().push((label@, TranscriptEntry::Challenge)),
    ;
}

/// `log` extends `start` by at least one step, and its last step drew a
/// challenge that has no inverse.
pub open spec fn ends_in_zero_challenge<E: PairingCurve, T: Transcript<E>>(
    start: TranscriptLog<E>,
    log: TranscriptLog<E>,
) -> bool {
    &&& start.len() < log.len()
    &&& log.subrange(0, start.len() as int) == start
    &&& log.last().1 is Challenge
    &&& !(<<E::G1 as crate::arithmetic::Group>::Scalar as crate::arithmetic::Field>::spec_inv(
        T::spec_challenge(log.drop_last(), log.last().0)) is Some)
}

} // verus!
