//! The per-image face pipeline: detector output is fed in, then one landmark
//! set per detected face, then one encoding per landmark set, all in detector
//! order. The pipeline itself is pure bookkeeping — the three model
//! invocations happen outside and hand their results in — so the order and
//! the one-to-one correspondence of the three sequences are proved here.
//!
//! The encoding payload is opaque to this crate (the reference encoder
//! produces fixed-length real-valued vectors), so the pipeline is generic
//! over it.

use vstd::prelude::*;

verus! {

/// A rectangular bounding box for one detected face, in image pixel
/// coordinates.
#[derive(Clone, Copy, Debug, PartialEq, Eq, Structural)]
pub struct FaceLocation {
    pub left: i64,
    pub top: i64,
    pub right: i64,
    pub bottom: i64,
}

/// One 2D landmark point on a detected face.
#[derive(Clone, Copy, Debug, PartialEq, Eq, Structural)]
pub struct LandmarkPoint {
    pub x: i64,
    pub y: i64,
}

/// The ordered landmark points the predictor produced for exactly one
/// detected face (68 points in the reference model; the count is
/// predictor-defined).
#[derive(Clone, Debug, PartialEq)]
pub struct FaceLandmarks {
    pub points: Vec<LandmarkPoint>,
}

impl View for FaceLandmarks {
    type V = Seq<LandmarkPoint>;

    open spec fn view(&self) -> Seq<LandmarkPoint> {
        self.points@
    }
}

/// The abstract state of a pipeline run: the three sequences as they grow.
pub struct PipelineModel<E> {
    pub locations: Seq<FaceLocation>,
    pub landmarks: Seq<Seq<LandmarkPoint>>,
    pub encodings: Seq<E>,
}

impl<E> PipelineModel<E> {
    /// Landmarks never outrun the detected faces, and encodings never outrun
    /// the landmarks.
    pub open spec fn wf(self) -> bool {
        self.landmarks.len() <= self.locations.len()
            && self.encodings.len() <= self.landmarks.len()
    }

    /// Every detected face has its landmark set and its encoding.
    pub open spec fn complete(self) -> bool {
        self.landmarks.len() == self.locations.len()
            && self.encodings.len() == self.locations.len()
    }
}

/// The state right after detection: locations fixed, nothing predicted yet.
pub open spec fn pipeline_init<E>(locs: Seq<FaceLocation>) -> PipelineModel<E> {
    PipelineModel { locations: locs, landmarks: Seq::empty(), encodings: Seq::empty() }
}

/// One landmark set arrives: it belongs to the next face in detector order.
pub open spec fn step_landmarks<E>(m: PipelineModel<E>, lm: Seq<LandmarkPoint>) -> PipelineModel<
    E,
> {
    PipelineModel { landmarks: m.landmarks.push(lm), ..m }
}

/// One encoding arrives: it belongs to the next landmark set in order.
pub open spec fn step_encoding<E>(m: PipelineModel<E>, e: E) -> PipelineModel<E> {
    PipelineModel { encodings: m.encodings.push(e), ..m }
}

/// The state after feeding a whole sequence of landmark sets, in order.
pub open spec fn feed_landmarks<E>(m: PipelineModel<E>, lms: Seq<Seq<LandmarkPoint>>) -> PipelineModel<E>
    decreases lms.len(),
{
    if lms.len() == 0 {
        m
    } else {
        feed_landmarks(step_landmarks(m, lms.first()), lms.drop_first())
    }
}

/// The state after feeding a whole sequence of encodings, in order.
pub open spec fn feed_encodings<E>(m: PipelineModel<E>, es: Seq<E>) -> PipelineModel<E>
    decreases es.len(),
{
    if es.len() == 0 {
        m
    } else {
        feed_encodings(step_encoding(m, es.first()), es.drop_first())
    }
}

/// A whole pipeline run as a function of its inputs: the detector's
/// locations, then the predictor's responses, then the encoder's responses.
pub open spec fn pipeline_run<E>(
    locs: Seq<FaceLocation>,
    lms: Seq<Seq<LandmarkPoint>>,
    es: Seq<E>,
) -> PipelineModel<E> {
    feed_encodings(feed_landmarks(pipeline_init(locs), lms), es)
}

/// The per-image aggregate: three parallel sequences, index `i` of each
/// referring to the same physical face.
pub struct ImageResult<E> {
    pub locations: Vec<FaceLocation>,
    pub landmarks: Vec<FaceLandmarks>,
    pub encodings: Vec<E>,
}

impl<E> View for ImageResult<E> {
    type V = PipelineModel<E>;

    open spec fn view(&self) -> PipelineModel<E> {
        PipelineModel {
            locations: self.locations@,
            landmarks: self.landmarks@.map_values(|l: FaceLandmarks| l@),
            encodings: self.encodings@,
        }
    }
}

/// An in-progress run over one image.
pub struct ImagePipeline<E> {
    locations: Vec<FaceLocation>,
    landmarks: Vec<FaceLandmarks>,
    encodings: Vec<E>,
}

impl<E> View for ImagePipeline<E> {
    type V = PipelineModel<E>;

    closed spec fn view(&self) -> PipelineModel<E> {
        PipelineModel {
            locations: self.locations@,
            landmarks: self.landmarks@.map_values(|l: FaceLandmarks| l@),
            encodings: self.encodings@,
        }
    }
}

impl<E> ImagePipeline<E> {
    /// Starts a run from the detector's output for one image.
    pub fn new(locations: Vec<FaceLocation>) -> (p: Self)
        ensures
            p@ == pipeline_init::<E>(locations@),
            p@.wf(),
    {
        let p = ImagePipeline { locations, landmarks: Vec::new(), encodings: Vec::new() };
        proof {
            assert(p@.landmarks =~= Seq::<Seq<LandmarkPoint>>::empty());
            assert(p@ =~= pipeline_init::<E>(p.locations@));
        }
        p
    }

    /// The face whose landmarks must be predicted next, in detector order;
    /// `None` once every face has its landmark set.
    pub fn next_landmark_target(&self) -> (r: Option<FaceLocation>)
        requires
            self@.wf(),
        ensures
            self@.landmarks.len() < self@.locations.len() ==> (r matches Some(loc) && loc
                == self@.locations[self@.landmarks.len() as int]),
            self@.landmarks.len() == self@.locations.len() ==> r is None,
    {
        if self.landmarks.len() < self.locations.len() {
            Some(self.locations[self.landmarks.len()])
        } else {
            None
        }
    }

    /// Records the predictor's landmark set for the next face in order.
    pub fn push_landmarks(&mut self, lm: FaceLandmarks)
        requires
            old(self)@.wf(),
            old(self)@.landmarks.len() < old(self)@.locations.len(),
        ensures
            final(self)@ == step_landmarks(old(self)@, lm@),
            final(self)@.wf(),
    {
        let ghost before = self@;
        let ghost lmv = lm@;
        self.landmarks.push(lm);
        proof {
            assert(self.landmarks@.map_values(|l: FaceLandmarks| l@) =~= before.landmarks.push(
                lmv,
            ));
            assert(self@ =~= step_landmarks(before, lmv));
        }
    }

    /// The landmark set the encoder must consume next, in detector order;
    /// `None` before landmarking is finished or once every face is encoded.
    pub fn next_encode_target(&self) -> (r: Option<&FaceLandmarks>)
        requires
            self@.wf(),
        ensures
            (self@.landmarks.len() == self@.locations.len() && self@.encodings.len()
                < self@.landmarks.len()) ==> (r matches Some(lm) && lm@
                == self@.landmarks[self@.encodings.len() as int]),
            (self@.landmarks.len() < self@.locations.len() || self@.encodings.len()
                == self@.landmarks.len()) ==> r is None,
    {
        if self.landmarks.len() == self.locations.len() && self.encodings.len()
            < self.landmarks.len() {
            Some(&self.landmarks[self.encodings.len()])
        } else {
            None
        }
    }

    /// Records the encoder's output for the next landmark set in order.
    pub fn push_encoding(&mut self, e: E)
        requires
            old(self)@.wf(),
            old(self)@.encodings.len() < old(self)@.landmarks.len(),
        ensures
            final(self)@ == step_encoding(old(self)@, e),
            final(self)@.wf(),
    {
        let ghost before = self@;
        self.encodings.push(e);
        proof {
            assert(self@ =~= step_encoding(before, e));
        }
    }

    /// Whether every detected face has both its landmark set and its
    /// encoding.
    pub fn is_complete(&self) -> (b: bool)
        ensures
            b == self@.complete(),
    {
        self.landmarks.len() == self.locations.len() && self.encodings.len()
            == self.locations.len()
    }

    /// Hands the finished aggregate out. The three sequences are exactly the
    /// run's, and their lengths are equal.
    pub fn into_result(self) -> (r: ImageResult<E>)
        requires
            self@.complete(),
        ensures
            r@ == self@,
            r@.landmarks.len() == r@.locations.len(),
            r@.encodings.len() == r@.locations.len(),
    {
        let r = ImageResult {
            locations: self.locations,
            landmarks: self.landmarks,
            encodings: self.encodings,
        };
        proof {
            assert(r@ =~= self@);
        }
        r
    }
}

/// An image in which the detector found no face yields an empty, completed
/// run: all three sequences of its result are empty, and no error arises.
pub proof fn lemma_no_faces_empty_result<E>(locs: Seq<FaceLocation>)
    requires
        locs.len() == 0,
    ensures
        pipeline_init::<E>(locs).complete(),
        pipeline_init::<E>(locs).locations.len() == 0,
        pipeline_init::<E>(locs).landmarks.len() == 0,
        pipeline_init::<E>(locs).encodings.len() == 0,
{
}

/// A completed run is length-aligned: one landmark set and one encoding for
/// each detected face.
pub proof fn lemma_complete_run_aligned<E>(m: PipelineModel<E>)
    requires
        m.complete(),
    ensures
        m.landmarks.len() == m.locations.len(),
        m.encodings.len() == m.locations.len(),
{
}

/// The pipeline adds no nondeterminism: with the detector's output and the
/// two models' responses fixed, the run's outcome is fixed.
pub proof fn lemma_pipeline_deterministic<E>(
    locs1: Seq<FaceLocation>,
    lms1: Seq<Seq<LandmarkPoint>>,
    es1: Seq<E>,
    locs2: Seq<FaceLocation>,
    lms2: Seq<Seq<LandmarkPoint>>,
    es2: Seq<E>,
)
    requires
        locs1 == locs2,
        lms1 == lms2,
        es1 == es2,
    ensures
        pipeline_run(locs1, lms1, es1) == pipeline_run(locs2, lms2, es2),
{
}

} // verus!
