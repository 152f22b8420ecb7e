//! Job identity and the description of requested work.

use crate::media_helpers::Rotation;
use smallvec::SmallVec;
use vstd::prelude::*;

verus! {

/// Handle of one in-flight request, supplied by the caller.
#[derive(Clone, Copy, Debug, PartialEq, Eq, Structural)]
pub struct JobId(pub u64);

impl std::ops::Deref for JobId {
    type Target = u64;

    /// The number behind the handle.
    fn deref(&self) -> (raw: &u64)
        ensures
            *raw == self.0,
    {
        &self.0
    }
}

/// One transform that a request asks for.
#[derive(Debug, PartialEq, Eq, Clone)]
pub enum JobType {
    Resize { width: u16, height: u16 },
    Caption { text: String, bottom: bool },
    Rotate { rotation: Rotation },
}

/// The transforms that a chain holds, first to last.
pub uninterp spec fn subparts_of(part: JobPart) -> Seq<JobType>;

/// The chains that a request holds, first to last.
pub uninterp spec fn parts_of(parts: JobParts) -> Seq<JobPart>;

/// The chain of transforms for one piece of media. It is kept in a
/// `smallvec::SmallVec`; what the vector holds is known as `subparts_of`.
#[verifier::external_body]
#[derive(Debug, Eq, PartialEq)]
pub struct JobPart {
    /// One entry for each chained transform.
    pub subparts: SmallVec<[JobType; 1]>,
}

/// The parts of a request, one for each piece of media. They are kept in a
/// `smallvec::SmallVec`; what the vector holds is known as `parts_of`.
#[verifier::external_body]
#[derive(Debug)]
pub struct JobParts {
    items: SmallVec<[JobPart; 1]>,
}

/// All the work asked for by one request.
#[derive(Debug, Clone)]
pub struct Job {
    /// The request that this work answers.
    pub id: JobId,
    /// One part for each piece of media.
    pub parts: JobParts,
}

/// `SmallVec::from_buf` on an array of one transform: the vector holds
/// exactly that transform.
#[verifier::external_body]
fn one_subpart(ty: JobType) -> (part: JobPart)
    ensures
        subparts_of(part) == seq![ty],
{
    JobPart { subparts: SmallVec::from_buf([ty]) }
}

/// `SmallVec::from_buf` on an array of one chain: the vector holds exactly
/// that chain.
#[verifier::external_body]
fn one_part(part: JobPart) -> (parts: JobParts)
    ensures
        parts_of(parts) == seq![part],
{
    JobParts { items: SmallVec::from_buf([part]) }
}

/// `SmallVec::from_vec`: the vector holds the chains of `parts`, in their
/// order.
#[verifier::external_body]
fn all_parts(parts: Vec<JobPart>) -> (held: JobParts)
    ensures
        parts_of(held) == parts@,
{
    JobParts { items: SmallVec::from_vec(parts) }
}

/// `SmallVec::as_slice` on a chain: the slice shows the transforms that the
/// vector holds, in order.
#[verifier::external_body]
fn subparts_slice(part: &JobPart) -> (items: &[JobType])
    ensures
        items@ == subparts_of(*part),
{
    part.subparts.as_slice()
}

/// `SmallVec::as_slice` on a request's parts: the slice shows the chains
/// that the vector holds, in order.
#[verifier::external_body]
fn parts_slice(parts: &JobParts) -> (items: &[JobPart])
    ensures
        items@ == parts_of(*parts),
{
    parts.items.as_slice()
}

impl Clone for JobPart {
    /// `SmallVec::clone`: a vector of the items' own copies. Nothing is
    /// claimed of the copy.
    #[verifier::external_body]
    fn clone(&self) -> (copy: JobPart) {
        JobPart { subparts: self.subparts.clone() }
    }
}

impl Clone for JobParts {
    /// `SmallVec::clone`: a vector of the items' own copies. Nothing is
    /// claimed of the copy.
    #[verifier::external_body]
    fn clone(&self) -> (copy: JobParts) {
        JobParts { items: self.items.clone() }
    }
}

impl JobPart {
    /// The transforms of this chain, first to last.
    pub open spec fn steps(&self) -> Seq<JobType> {
        subparts_of(*self)
    }
}

impl PartialEq for Job {
    /// Two descriptions are the same job when they answer the same request.
    fn eq(&self, other: &Job) -> (same: bool) {
        self.id == other.id
    }
}

impl vstd::std_specs::cmp::PartialEqSpecImpl for Job {
    open spec fn obeys_eq_spec() -> bool {
        true
    }

    open spec fn eq_spec(&self, other: &Job) -> bool {
        self.id == other.id
    }
}

impl Eq for Job {

}

impl Job {
    /// The chains of this request, each as its transforms in order.
    pub open spec fn plan(&self) -> Seq<Seq<JobType>> {
        parts_of(self.parts).map_values(|part: JobPart| part.steps())
    }

    /// A request for a single transform on a single piece of media.
    pub fn new_simple(ty: JobType, id: JobId) -> (job: Job)
        ensures
            job.id == id,
            job.plan() == seq![seq![ty]],
    {
        let job = Job { id, parts: one_part(one_subpart(ty)) };
        proof {
            assert(job.plan() =~= seq![seq![ty]]);
        }
        job
    }

    /// A request with the given parts, one for each piece of media.
    pub fn from_parts(id: JobId, parts: Vec<JobPart>) -> (job: Job)
        ensures
            job.id == id,
            job.plan() == parts@.map_values(|part: JobPart| part.steps()),
    {
        Job { id, parts: all_parts(parts) }
    }

    /// The transform that is carried out: the first one of the first chain.
    /// `None` when the request holds no chain or its first chain is empty.
    pub fn first_task(&self) -> (task: Option<&JobType>)
        ensures
            match task {
                Some(ty) => self.plan().len() > 0 && self.plan()[0].len() > 0 && *ty
                    == self.plan()[0][0],
                None => self.plan().len() == 0 || self.plan()[0].len() == 0,
            },
    {
        let parts = parts_slice(&self.parts);
        if parts.len() == 0 {
            return None;
        }
        let steps = subparts_slice(&parts[0]);
        if steps.len() == 0 {
            return None;
        }
        Some(&steps[0])
    }
}

} // verus!
