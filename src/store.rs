//! The artifact cache: its layout, and the order of checks, downloads,
//! expansion and rollback that makes a model present in it.
//!
//! The caller performs each step (an existence check, a transfer, an
//! extraction, a removal) and reports whether it held or succeeded; the
//! acquisition decides what comes next.

use vstd::prelude::*;

verus! {

/// The directory name, under the platform's local data directory, that holds
/// every artifact of this application.
pub open spec fn namespace_spec() -> Seq<char> {
    "whisper-stream-rs"@
}

/// The base model name of the auxiliary compiled encoder.
pub open spec fn aux_base_spec() -> Seq<char> {
    "ggml-base.en"@
}

/// Directory name of the auxiliary encoder built from `base`.
pub open spec fn aux_dir_spec(base: Seq<char>) -> Seq<char> {
    base + "-encoder.mlmodelc"@
}

/// File name of the transient archive of the auxiliary encoder.
pub open spec fn aux_archive_spec(base: Seq<char>) -> Seq<char> {
    base + "-encoder.mlmodelc.zip"@
}

/// Address of the archive of the auxiliary encoder built from `base`.
pub open spec fn aux_url_spec(base: Seq<char>) -> Seq<char> {
    "https://models.milan.place/whisper-cpp/metal//"@ + base + "-encoder.mlmodelc.zip"@
}

/// Returns the cache namespace directory name.
pub fn cache_namespace() -> (r: &'static str)
    ensures
        r@ == namespace_spec(),
{
    "whisper-stream-rs"
}

/// Returns the base model name of the auxiliary encoder.
pub fn aux_base_name() -> (r: &'static str)
    ensures
        r@ == aux_base_spec(),
{
    "ggml-base.en"
}

/// Returns the directory name of the auxiliary encoder built from `base`.
pub fn aux_dir_name(base: &str) -> (r: String)
    ensures
        r@ == aux_dir_spec(base@),
{
    String::from_str(base).concat("-encoder.mlmodelc")
}

/// Returns the file name of the auxiliary encoder's archive.
pub fn aux_archive_name(base: &str) -> (r: String)
    ensures
        r@ == aux_archive_spec(base@),
{
    String::from_str(base).concat("-encoder.mlmodelc.zip")
}

/// Returns the address of the auxiliary encoder's archive.
pub fn aux_url(base: &str) -> (r: String)
    ensures
        r@ == aux_url_spec(base@),
{
    String::from_str("https://models.milan.place/whisper-cpp/metal//").concat(base).concat(
        "-encoder.mlmodelc.zip",
    )
}

/// A step of acquisition, pending until the caller reports on it.
#[derive(Debug, Clone, Copy, PartialEq, Eq, Structural)]
pub enum Step {
    /// Check whether the primary artifact exists in the cache.
    CheckPrimary,
    /// Fetch the primary artifact from the model's address.
    DownloadPrimary,
    /// Check whether the auxiliary encoder directory exists.
    CheckAux,
    /// Fetch the auxiliary encoder's archive.
    DownloadAux,
    /// Extract the archive into the cache root.
    ExpandAux,
    /// After a failed extraction: remove the archive and the encoder
    /// directory, each on a best-effort basis, and keep the original error.
    CleanupAux,
    /// After a successful extraction: remove the archive, best effort.
    RemoveArchive,
    /// The primary artifact is ready; its path is the result.
    Succeed,
    /// The error of the last failed step is the result.
    Fail,
}

/// Whether a step talks to the network.
pub open spec fn is_network(s: Step) -> bool {
    s == Step::DownloadPrimary || s == Step::DownloadAux
}

/// Whether a step ends the acquisition.
pub open spec fn is_final(s: Step) -> bool {
    s == Step::Succeed || s == Step::Fail
}

/// The step after `s`, given whether the auxiliary encoder is wanted and
/// whether `s` held (for a check) or succeeded (for an action).
pub open spec fn next_step(s: Step, aux: bool, ok: bool) -> Step {
    match s {
        Step::CheckPrimary => if ok { Step::Succeed } else { Step::DownloadPrimary },
        Step::DownloadPrimary => if ok {
            if aux { Step::CheckAux } else { Step::Succeed }
        } else {
            Step::Fail
        },
        Step::CheckAux => if ok { Step::Succeed } else { Step::DownloadAux },
        Step::DownloadAux => if ok { Step::ExpandAux } else { Step::Fail },
        Step::ExpandAux => if ok { Step::RemoveArchive } else { Step::CleanupAux },
        Step::CleanupAux => Step::Fail,
        Step::RemoveArchive => Step::Succeed,
        Step::Succeed => Step::Succeed,
        Step::Fail => Step::Fail,
    }
}

/// The steps visited from `s` when the caller reports `reports` in turn.
pub open spec fn run(s: Step, aux: bool, reports: Seq<bool>) -> Seq<Step>
    decreases reports.len(),
{
    if reports.len() == 0 {
        seq![s]
    } else {
        seq![s] + run(next_step(s, aux, reports[0]), aux, reports.drop_first())
    }
}

/// An acquisition in progress.
pub struct Acquisition {
    step: Step,
    aux: bool,
}

impl Acquisition {
    /// The pending step.
    pub closed spec fn spec_step(&self) -> Step {
        self.step
    }

    /// Whether the auxiliary encoder is acquired too.
    pub closed spec fn spec_aux(&self) -> bool {
        self.aux
    }

    /// Starts an acquisition; `aux` asks for the auxiliary encoder as well.
    pub fn start(aux: bool) -> (r: Acquisition)
        ensures
            r.spec_step() == Step::CheckPrimary,
            r.spec_aux() == aux,
    {
        Acquisition { step: Step::CheckPrimary, aux }
    }

    /// The step the caller must perform next.
    pub fn pending(&self) -> (r: Step)
        ensures
            r == self.spec_step(),
    {
        self.step
    }

    /// Records the caller's report on the pending step and moves on.
    pub fn advance(&mut self, ok: bool)
        ensures
            final(self).spec_step() == next_step(old(self).spec_step(), old(self).spec_aux(), ok),
            final(self).spec_aux() == old(self).spec_aux(),
    {
        let aux = self.aux;
        self.step = match self.step {
            Step::CheckPrimary => if ok { Step::Succeed } else { Step::DownloadPrimary },
            Step::DownloadPrimary => if !ok {
                Step::Fail
            } else if aux {
                Step::CheckAux
            } else {
                Step::Succeed
            },
            Step::CheckAux => if ok { Step::Succeed } else { Step::DownloadAux },
            Step::DownloadAux => if ok { Step::ExpandAux } else { Step::Fail },
            Step::ExpandAux => if ok { Step::RemoveArchive } else { Step::CleanupAux },
            Step::CleanupAux => Step::Fail,
            Step::RemoveArchive => Step::Succeed,
            Step::Succeed => Step::Succeed,
            Step::Fail => Step::Fail,
        };
    }
}

/// A finished acquisition stays where it is, whatever is reported.
pub proof fn final_steps_stay(s: Step, aux: bool, reports: Seq<bool>)
    requires
        is_final(s),
    ensures
        forall|i: int| 0 <= i < run(s, aux, reports).len() ==> #[trigger] run(s, aux, reports)[i] == s,
        run(s, aux, reports).len() == reports.len() + 1,
    decreases reports.len(),
{
    if reports.len() > 0 {
        final_steps_stay(next_step(s, aux, reports[0]), aux, reports.drop_first());
    }
}

/// When the primary artifact is already in the cache, an acquisition ends
/// in success at once and makes no network call, whatever is reported
/// afterwards and whether or not the auxiliary encoder is wanted.
pub proof fn present_artifact_is_not_fetched(aux: bool, reports: Seq<bool>)
    requires
        reports.len() >= 1,
        reports[0],
    ensures
        forall|i: int|
            0 <= i < run(Step::CheckPrimary, aux, reports).len() ==> !is_network(
                #[trigger] run(Step::CheckPrimary, aux, reports)[i],
            ),
        run(Step::CheckPrimary, aux, reports)[1] == Step::Succeed,
        run(Step::CheckPrimary, aux, reports).last() == Step::Succeed,
{
    final_steps_stay(Step::Succeed, aux, reports.drop_first());
    assert(run(Step::CheckPrimary, aux, reports) == seq![Step::CheckPrimary] + run(
        Step::Succeed,
        aux,
        reports.drop_first(),
    ));
}

/// A failed extraction is always followed by the removal of both the archive
/// and the partial encoder directory, and then by failure with the
/// extraction's error, whether or not the removal succeeded.
pub proof fn failed_expansion_is_rolled_back(aux: bool, cleanup_ok: bool)
    ensures
        next_step(Step::ExpandAux, aux, false) == Step::CleanupAux,
        next_step(Step::CleanupAux, aux, cleanup_ok) == Step::Fail,
        run(Step::ExpandAux, aux, seq![false, cleanup_ok]) == seq![Step::ExpandAux, Step::CleanupAux, Step::Fail],
{
    let s = seq![false, cleanup_ok];
    assert(s.drop_first() =~= seq![cleanup_ok]);
    assert(s.drop_first().drop_first() =~= Seq::<bool>::empty());
    let tail = run(Step::Fail, aux, Seq::<bool>::empty());
    assert(tail == seq![Step::Fail]);
    let mid = run(Step::CleanupAux, aux, seq![cleanup_ok]);
    assert(seq![cleanup_ok].drop_first() =~= Seq::<bool>::empty());
    assert(mid == seq![Step::CleanupAux] + tail);
    assert(run(Step::ExpandAux, aux, s) == seq![Step::ExpandAux] + mid);
    assert(run(Step::ExpandAux, aux, s) =~= seq![Step::ExpandAux, Step::CleanupAux, Step::Fail]);
}

} // verus!
