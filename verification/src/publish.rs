//! Publishing ratified commits to the delta log.
//!
//! Every commit is copied from where it was staged to where it is published, in order. A
//! [`Publication`] waits for one copy; handing it what came of the copy gives the next step.

use vstd::prelude::*;

use crate::error::{outcome, DeltaError, DeltaErrorView, DeltaResult};
use crate::uc_committer::UCCommitter;

verus! {

/// A commit that the catalog has ratified and that is not published yet.
#[derive(Debug)]
pub struct CatalogCommit {
    /// The version that the commit made.
    pub version: u64,
    /// The URL of the staged commit file.
    pub location: String,
    /// The URL to publish it at.
    pub published_location: String,
}

/// A publication that waits for one of its commits to be copied.
#[derive(Debug)]
pub struct Publication {
    commits: Vec<CatalogCommit>,
    next: usize,
}

/// The mathematical value of a [`Publication`]: all its commits, and which of them is to be
/// copied.
#[verifier::ext_equal]
pub struct PublicationView {
    pub commits: Seq<CatalogCommit>,
    pub next: int,
}

impl View for Publication {
    type V = PublicationView;

    closed spec fn view(&self) -> PublicationView {
        PublicationView { commits: self.commits@, next: self.next as int }
    }
}

/// What is to be done next to publish commits.
#[derive(Debug)]
pub enum PublishStep {
    /// Copy a commit, and hand what came of it to [`Publication::copied`].
    Copy(Publication),
    /// Return.
    Done(DeltaResult<()>),
}

/// The mathematical value of a [`PublishStep`].
#[verifier::ext_equal]
pub enum PublishStepView {
    Copy(PublicationView),
    Done(Result<(), DeltaErrorView>),
}

impl View for PublishStep {
    type V = PublishStepView;

    open spec fn view(&self) -> PublishStepView {
        match *self {
            PublishStep::Copy(publication) => PublishStepView::Copy(publication@),
            PublishStep::Done(result) => PublishStepView::Done(outcome(result)),
        }
    }
}

/// The step at which the commits before `next` are published: copy that one, or succeed where
/// there is none.
pub open spec fn publish_from(commits: Seq<CatalogCommit>, next: int) -> PublishStepView {
    if next < commits.len() {
        PublishStepView::Copy(PublicationView { commits, next })
    } else {
        PublishStepView::Done(Ok(()))
    }
}

/// Whether a commit is published once a copy of it has ended so: the copy was made, or the target
/// exists already.
pub open spec fn is_published(copy: Result<(), DeltaErrorView>) -> bool {
    copy is Ok || copy matches Err(DeltaErrorView::FileAlreadyExists(_))
}

impl PublicationView {
    /// The step after the copy that was waited for.
    pub open spec fn copied(self, copy: Result<(), DeltaErrorView>) -> PublishStepView {
        if is_published(copy) {
            publish_from(self.commits, self.next + 1)
        } else {
            PublishStepView::Done(copy)
        }
    }
}

impl Publication {
    #[verifier::type_invariant]
    spec fn well_formed(self) -> bool {
        self.next < self.commits@.len()
    }

    /// The commit to be copied, from its location to its published location.
    pub fn commit(&self) -> (commit: &CatalogCommit)
        ensures
            0 <= self@.next < self@.commits.len(),
            *commit == self@.commits[self@.next],
    {
        proof {
            use_type_invariant(self);
        }
        &self.commits[self.next]
    }

    /// Goes on once the copy has ended.
    pub fn copied(self, copy: DeltaResult<()>) -> (step: PublishStep)
        ensures
            step@ == self@.copied(outcome(copy)),
            (copy is Ok || copy->Err_0 is FileAlreadyExists) ==> {
                if self@.next + 1 < self@.commits.len() {
                    step matches PublishStep::Copy(p) && p@ == (PublicationView {
                        commits: self@.commits,
                        next: self@.next + 1,
                    })
                } else {
                    step == PublishStep::Done(Ok(()))
                }
            },
            copy is Err && !(copy->Err_0 is FileAlreadyExists) ==> step == PublishStep::Done(copy),
    {
        proof {
            use_type_invariant(&self);
        }
        match copy {
            Ok(_) => (),
            Err(DeltaError::FileAlreadyExists(_)) => (),
            Err(e) => return PublishStep::Done(Err(e)),
        }
        let len: usize = self.commits.len();
        let next: usize = self.next + 1;
        if next < len {
            PublishStep::Copy(Publication { commits: self.commits, next })
        } else {
            PublishStep::Done(Ok(()))
        }
    }
}

impl<C> UCCommitter<C> {
    /// Starts to publish commits to the delta log.
    pub fn publish(&self, commits_to_publish: Vec<CatalogCommit>) -> (step: PublishStep)
        ensures
            step@ == publish_from(commits_to_publish@, 0),
            commits_to_publish@.len() == 0 ==> step == PublishStep::Done(Ok(())),
            commits_to_publish@.len() > 0 ==> (step matches PublishStep::Copy(p) && p@ == (
            PublicationView { commits: commits_to_publish@, next: 0 })),
    {
        if commits_to_publish.len() == 0 {
            return PublishStep::Done(Ok(()));
        }
        PublishStep::Copy(Publication { commits: commits_to_publish, next: 0 })
    }
}

/// What a whole publication returns, where `copies(i)` is what comes of copying the commit at
/// index `i`.
pub open spec fn run_publish(
    step: PublishStepView,
    copies: spec_fn(int) -> Result<(), DeltaErrorView>,
) -> Result<(), DeltaErrorView>
    decreases
            match step {
                PublishStepView::Copy(p) => p.commits.len() - p.next + 1,
                PublishStepView::Done(_) => 0,
            },
{
    match step {
        PublishStepView::Done(result) => result,
        PublishStepView::Copy(p) => if p.next < p.commits.len() {
            run_publish(p.copied(copies(p.next)), copies)
        } else {
            Ok(())
        },
    }
}

/// The commits that a whole publication tries to copy, in order.
pub open spec fn attempted_copies(
    step: PublishStepView,
    copies: spec_fn(int) -> Result<(), DeltaErrorView>,
) -> Seq<CatalogCommit>
    decreases
            match step {
                PublishStepView::Copy(p) => p.commits.len() - p.next + 1,
                PublishStepView::Done(_) => 0,
            },
{
    match step {
        PublishStepView::Done(_) => seq![],
        PublishStepView::Copy(p) => if p.next < p.commits.len() {
            seq![p.commits[p.next]] + attempted_copies(p.copied(copies(p.next)), copies)
        } else {
            seq![]
        },
    }
}

/// A publication in which every copy is made, or finds its target there already, succeeds, and has
/// tried to copy every commit once, in order.
pub proof fn law_publish_succeeds(
    commits: Seq<CatalogCommit>,
    copies: spec_fn(int) -> Result<(), DeltaErrorView>,
)
    requires
        forall|i: int|
            0 <= i < commits.len() ==> (#[trigger] copies(i) is Ok || copies(i) matches Err(
                DeltaErrorView::FileAlreadyExists(_),
            )),
    ensures
        run_publish(publish_from(commits, 0), copies) == Ok::<(), DeltaErrorView>(()),
        attempted_copies(publish_from(commits, 0), copies) == commits,
{
    lemma_publish_succeeds_from(commits, 0, copies);
    assert(commits.skip(0) =~= commits);
}

/// A publication stops at the first copy that fails with another error than that its target
/// exists: an error of bytes, of a message or of the kernel. It returns that error, and has tried to copy that commit and those before it, each once, in order, and none
/// after it.
pub proof fn law_publish_stops_at_first_failure(
    commits: Seq<CatalogCommit>,
    failing: int,
    copies: spec_fn(int) -> Result<(), DeltaErrorView>,
)
    requires
        0 <= failing < commits.len(),
        forall|i: int|
            0 <= i < failing ==> (#[trigger] copies(i) is Ok || copies(i) matches Err(
                DeltaErrorView::FileAlreadyExists(_),
            )),
        copies(failing) is Err,
        copies(failing)->Err_0 is Utf8Error || copies(failing)->Err_0 is Generic || copies(
            failing,
        )->Err_0 is Kernel,
    ensures
        run_publish(publish_from(commits, 0), copies) == copies(failing),
        copies(failing) is Err,
        attempted_copies(publish_from(commits, 0), copies) == commits.take(failing + 1),
{
    lemma_publish_stops_from(commits, 0, failing, copies);
    assert(commits.subrange(0, failing + 1) =~= commits.take(failing + 1));
}

proof fn lemma_publish_succeeds_from(
    commits: Seq<CatalogCommit>,
    next: int,
    copies: spec_fn(int) -> Result<(), DeltaErrorView>,
)
    requires
        0 <= next <= commits.len(),
        forall|i: int| next <= i < commits.len() ==> is_published(#[trigger] copies(i)),
    ensures
        run_publish(publish_from(commits, next), copies) == Ok::<(), DeltaErrorView>(()),
        attempted_copies(publish_from(commits, next), copies) == commits.skip(next),
    decreases commits.len() - next,
{
    if next < commits.len() {
        lemma_publish_succeeds_from(commits, next + 1, copies);
        assert(seq![commits[next]] + commits.skip(next + 1) =~= commits.skip(next));
    } else {
        assert(commits.skip(next) =~= seq![]);
    }
}

proof fn lemma_publish_stops_from(
    commits: Seq<CatalogCommit>,
    next: int,
    failing: int,
    copies: spec_fn(int) -> Result<(), DeltaErrorView>,
)
    requires
        0 <= next <= failing < commits.len(),
        forall|i: int| next <= i < failing ==> is_published(#[trigger] copies(i)),
        !is_published(copies(failing)),
    ensures
        run_publish(publish_from(commits, next), copies) == copies(failing),
        copies(failing) is Err,
        attempted_copies(publish_from(commits, next), copies) == commits.subrange(
            next,
            failing + 1,
        ),
    decreases failing - next,
{
    if next < failing {
        lemma_publish_stops_from(commits, next + 1, failing, copies);
        assert(seq![commits[next]] + commits.subrange(next + 1, failing + 1) =~= commits.subrange(
            next,
            failing + 1,
        ));
    } else {
        let stopped = PublishStepView::Done(copies(failing));
        assert(run_publish(stopped, copies) == copies(failing));
        assert(attempted_copies(stopped, copies) =~= seq![]);
        assert(seq![commits[next]] + Seq::<CatalogCommit>::empty() =~= commits.subrange(
            next,
            failing + 1,
        ));
    }
}

/// The step after a copy. A copy that was made, or whose target exists already, is followed by the
/// next commit in order, or by success where it was the last. Every other error, of bytes, of a
/// message or of the kernel, ends the publication with that error.
pub proof fn law_copy_decides_the_step(
    publication: PublicationView,
    path: Seq<char>,
    message: Seq<char>,
    error: delta_kernel::Error,
    valid_up_to: nat,
    error_len: Option<nat>,
)
    requires
        0 <= publication.next < publication.commits.len(),
    ensures
        publication.next + 1 < publication.commits.len() ==> {
            let next = PublishStepView::Copy(
                PublicationView { commits: publication.commits, next: publication.next + 1 },
            );
            &&& publication.copied(Ok(())) == next
            &&& publication.copied(Err(DeltaErrorView::FileAlreadyExists(path))) == next
        },
        publication.next + 1 == publication.commits.len() ==> {
            let success = PublishStepView::Done(Ok(()));
            &&& publication.copied(Ok(())) == success
            &&& publication.copied(Err(DeltaErrorView::FileAlreadyExists(path))) == success
        },
        publication.copied(Err(DeltaErrorView::Kernel(error))) == PublishStepView::Done(
            Err(DeltaErrorView::Kernel(error)),
        ),
        publication.copied(Err(DeltaErrorView::Generic(message))) == PublishStepView::Done(
            Err(DeltaErrorView::Generic(message)),
        ),
        publication.copied(Err(DeltaErrorView::Utf8Error { valid_up_to, error_len }))
            == PublishStepView::Done(Err(DeltaErrorView::Utf8Error { valid_up_to, error_len })),
{
}

/// A publication starts with the first commit, and has nothing to do where there is none.
pub proof fn law_publication_starts_with_the_first_commit(commits: Seq<CatalogCommit>)
    ensures
        commits.len() == 0 ==> publish_from(commits, 0) == PublishStepView::Done(Ok(())),
        commits.len() > 0 ==> publish_from(commits, 0) == PublishStepView::Copy(
            PublicationView { commits, next: 0 },
        ),
{
}

} // verus!
