//! The repository operation layer: branch creation, checkout and deletion,
//! merge and rebase decisions, staging, committing, stashing and the remote
//! transport calls, over an embedded version-control capability.
//!
//! The capability owns ref and object storage; this layer owns the
//! decisions around it. An abstract model ([`RepoModel`]) states what each
//! operation does to the branch map, to HEAD, to the stash stack and to the
//! working tree. The handle is exclusively owned by the running command;
//! concurrent mutation of the same repository by other processes is outside
//! the model.

use vstd::prelude::*;
use vstd::string::*;
use crate::branch::{spec_valid_branch_name, branch_name_is_valid, Branch};
use crate::errors::{GtError, GtResult};
use crate::status::{StatusEntry, WorkingTreeStatus, RepositoryStatus, SyncStatus,
    classify_worktree, summarize_status, classify_sync, spec_entry_untracked};

verus! {

#[verifier::external_type_specification]
#[verifier::external_body]
pub struct ExGitIndex(git2::Index);

#[verifier::external_type_specification]
#[verifier::external_body]
pub struct ExGitStatus(git2::Status);

#[verifier::external_type_specification]
#[verifier::external_body]
pub struct ExGitDiffDelta<'a>(git2::DiffDelta<'a>);

/// One stash entry as the model sees it: the saved uncommitted state,
/// and the tip the current branch had when the entry was saved — what an
/// application of the entry is exact against.
pub ghost struct StashRecord {
    pub state: int,
    pub base: Seq<char>,
}

/// The abstract state of the repository, as far as this layer speaks of it.
pub ghost struct RepoModel {
    /// The short name of the ref HEAD is on.
    pub head: Seq<char>,
    /// The local branches, each mapped to the hex form of its tip commit.
    pub branches: Map<Seq<char>, Seq<char>>,
    /// The uncommitted state of the working tree and index; `0` stands for
    /// a clean tree: the status listing is empty.
    pub worktree: int,
    /// The stash stack, most recent entry first.
    pub stashes: Seq<StashRecord>,
}

/// A canonical commit id: the forty lowercase hexadecimal digits the
/// capability renders every id as.
pub open spec fn spec_canonical_hex(s: Seq<char>) -> bool {
    s.len() == 40 && forall|i: int|
        0 <= i < s.len() ==> (('0' <= #[trigger] s[i] && s[i] <= '9') || ('a' <= s[i] && s[i]
            <= 'f'))
}

/// The working tree is clean in a model state.
pub open spec fn spec_clean(m: RepoModel) -> bool {
    m.worktree == 0
}

/// A repository opened for a single command. The embedded capability
/// handle is held in a private field; [`repo_model`] gives the abstract
/// state this layer's contracts speak of.
#[verifier::external_body]
pub struct Repository {
    inner: git2::Repository,
}

/// The abstract state behind a repository handle: which branches exist and
/// where they point, where HEAD is, what is uncommitted and what is
/// stashed.
pub uninterp spec fn repo_model(r: Repository) -> RepoModel;

impl View for Repository {
    type V = RepoModel;

    open spec fn view(&self) -> RepoModel {
        repo_model(*self)
    }
}

/// What creating a branch does to the model: the branch map gains the name
/// at the given tip; nothing else moves.
pub open spec fn spec_create_branch(m: RepoModel, name: Seq<char>, tip: Seq<char>) -> RepoModel {
    RepoModel { branches: m.branches.insert(name, tip), ..m }
}

/// What checking a branch out guarantees of the model: HEAD lands on the
/// name, the branch map and the stash stack stay, and a clean working tree
/// stays clean.
pub open spec fn spec_checkout_post(pre: RepoModel, post: RepoModel, name: Seq<char>) -> bool {
    &&& post.head == name
    &&& post.branches == pre.branches
    &&& post.stashes == pre.stashes
    &&& (spec_clean(pre) ==> spec_clean(post))
}

/// What a fast-forward of HEAD guarantees of the model: HEAD stays where
/// it is; on a branch, that branch's tip moves to the target; detached,
/// no branch moves at all.
pub open spec fn spec_ff_post(pre: RepoModel, post: RepoModel, tip: Seq<char>) -> bool {
    &&& post.head == pre.head
    &&& (pre.branches.contains_key(pre.head) ==> post.branches == pre.branches.insert(
        pre.head,
        tip,
    ))
    &&& (!pre.branches.contains_key(pre.head) ==> post.branches == pre.branches)
    &&& post.stashes == pre.stashes
    &&& (spec_clean(pre) ==> spec_clean(post))
}

/// The local refs — HEAD, the branch map and the stash stack — are the same
/// in two model states.
pub open spec fn spec_refs_unchanged(pre: RepoModel, post: RepoModel) -> bool {
    &&& post.head == pre.head
    &&& post.branches == pre.branches
    &&& post.stashes == pre.stashes
}

/// At most the current branch's tip moved: HEAD's place and the stash
/// stack are the same, and the branch map is either untouched or differs
/// only in the current branch's entry. This is what an interrupted
/// fast-forward leaves behind.
pub open spec fn spec_at_most_head_moved(pre: RepoModel, post: RepoModel) -> bool {
    &&& post.head == pre.head
    &&& post.stashes == pre.stashes
    &&& (post.branches == pre.branches || exists|t: Seq<char>|
        post.branches == pre.branches.insert(pre.head, t))
}

impl Repository {
    /// Relies on `git2::Repository::discover`: walks up from the given
    /// path to find and open the enclosing repository; one without a
    /// working directory (a bare repository) is refused.
    #[verifier::external_body]
    fn discover_at(path: &str) -> (r: Result<Repository, GtError>)
    {
        match git2::Repository::discover(path) {
            Ok(inner) => {
                if inner.workdir().is_none() {
                    return Err(GtError::NotInGitRepo);
                }
                Ok(Repository { inner })
            },
            Err(_) => Err(GtError::NotInGitRepo),
        }
    }

    /// Relies on `git2::Repository::init`: creates a repository at the
    /// path and opens it.
    #[verifier::external_body]
    fn init_at(path: &str) -> (r: Result<Repository, GtError>)
    {
        match git2::Repository::init(path) {
            Ok(inner) => Ok(Repository { inner }),
            Err(e) => Err(GtError::GitOperation { message: format!("{}", e) }),
        }
    }

    /// Relies on `git2::Repository::is_bare` and `workdir`: whether the
    /// repository has a working directory to operate on.
    #[verifier::external_body]
    pub fn is_valid(&self) -> bool {
        !self.inner.is_bare() && self.inner.workdir().is_some()
    }

    /// Opens the repository that contains the current directory.
    pub fn open() -> (r: GtResult<Repository>) {
        Self::discover_at(".")
    }

    /// Opens the repository that contains the given path.
    pub fn open_path(path: &str) -> (r: GtResult<Repository>) {
        Self::discover_at(path)
    }

    /// Creates a repository at the given path.
    pub fn init(path: &str) -> (r: GtResult<Repository>) {
        Self::init_at(path)
    }

    /// Finds and opens the repository enclosing the current directory.
    pub fn discover() -> (r: GtResult<Repository>) {
        Self::discover_at(".")
    }

    /// Relies on `git2::Repository::head` and `git2::Reference::shorthand`:
    /// the short name of the ref HEAD is on, where HEAD resolves at all.
    #[verifier::external_body]
    fn raw_head_name(&self) -> (r: Option<String>)
        ensures
            r matches Some(n) ==> n@ == repo_model(*self).head,
    {
        match self.inner.head() {
            Ok(head) => head.shorthand().ok().map(|s| s.to_string()),
            Err(_) => None,
        }
    }

    /// Relies on `git2::Repository::find_branch`: whether a local branch
    /// of the name exists; a lookup failure other than "not found" is
    /// reported as it came.
    #[verifier::external_body]
    fn raw_branch_exists(&self, name: &str) -> (r: Result<bool, GtError>)
        ensures
            r matches Ok(b) ==> b == repo_model(*self).branches.contains_key(name@),
            r matches Err(e) ==> e is GitOperation,
    {
        match self.inner.find_branch(name, git2::BranchType::Local) {
            Ok(_) => Ok(true),
            Err(e) if e.code() == git2::ErrorCode::NotFound => Ok(false),
            Err(e) => Err(GtError::GitOperation { message: format!("{}", e) }),
        }
    }

    /// Relies on `git2::Repository::find_branch` and
    /// `git2::Reference::target`: the tip commit of a local branch, in the
    /// forty-lowercase-hex rendering ids always get.
    #[verifier::external_body]
    fn raw_local_branch_tip(&self, name: &str) -> (r: Result<String, GtError>)
        ensures
            r matches Ok(t) ==> self@.branches.contains_key(name@) && t@ == self@.branches[name@]
                && spec_canonical_hex(t@),
            r matches Err(e) ==> e is GitOperation,
    {
        let b = self.inner.find_branch(name, git2::BranchType::Local).map_err(|e| {
            GtError::GitOperation { message: format!("base branch '{}' not found: {}", name, e) }
        })?;
        match b.get().target() {
            Some(oid) => Ok(oid.to_string()),
            None => Err(GtError::GitOperation { message: format!("branch '{}' has no tip", name) }),
        }
    }

    /// Relies on `git2::Repository::find_branch` with the remote branch
    /// kind: the tip commit of a remote-tracking branch, rendered
    /// canonically.
    #[verifier::external_body]
    fn raw_remote_branch_tip(&self, name: &str) -> (r: Result<String, GtError>)
        ensures
            r matches Ok(t) ==> spec_canonical_hex(t@),
            r matches Err(e) ==> e is GitOperation,
    {
        let b = self.inner.find_branch(name, git2::BranchType::Remote).map_err(|e| {
            GtError::GitOperation { message: format!("base branch '{}' not found: {}", name, e) }
        })?;
        match b.get().target() {
            Some(oid) => Ok(oid.to_string()),
            None => Err(GtError::GitOperation { message: format!("branch '{}' has no tip", name) }),
        }
    }

    /// Relies on `git2::Repository::head` and `git2::Reference::target`:
    /// the commit HEAD points at; where HEAD is on a branch of the model,
    /// that branch's tip.
    #[verifier::external_body]
    fn raw_head_tip(&self) -> (r: Result<String, GtError>)
        ensures
            r matches Ok(t) ==> (self@.branches.contains_key(self@.head) ==> t@
                == self@.branches[self@.head]),
            r matches Ok(t) ==> spec_canonical_hex(t@),
            r matches Err(e) ==> e is GitOperation,
    {
        let head = self.inner.head().map_err(|e| GtError::GitOperation {
            message: format!("cannot read HEAD: {}", e),
        })?;
        match head.target() {
            Some(oid) => Ok(oid.to_string()),
            None => Err(GtError::GitOperation { message: "HEAD has no commit".to_string() }),
        }
    }

    /// Resolves a revision string to a commit: the tip for a local branch
    /// name, and whatever the revision grammar says otherwise.
    fn resolve_commit(&self, spec: &str) -> (r: Result<String, GtError>)
        ensures
            r matches Ok(t) ==> (self@.branches.contains_key(spec@) ==> t@
                == self@.branches[spec@]),
            r matches Ok(t) ==> spec_canonical_hex(t@),
            r matches Err(e) ==> e is GitOperation,
    {
        if self.raw_branch_exists(spec)? {
            self.raw_local_branch_tip(spec)
        } else {
            self.raw_revparse_commit(spec)
        }
    }

    /// Relies on `git2::Repository::revparse_single`: resolves a revision
    /// string to a commit by the revision grammar, rendered canonically.
    #[verifier::external_body]
    fn raw_revparse_commit(&self, spec: &str) -> (r: Result<String, GtError>)
        ensures
            r matches Ok(t) ==> spec_canonical_hex(t@),
            r matches Err(e) ==> e is GitOperation,
    {
        let obj = self.inner.revparse_single(spec).map_err(|e| GtError::GitOperation {
            message: format!("cannot resolve '{}': {}", spec, e),
        })?;
        match obj.into_commit() {
            Ok(c) => Ok(c.id().to_string()),
            Err(_) => Err(GtError::GitOperation {
                message: format!("'{}' is not a commit", spec),
            }),
        }
    }

    /// Relies on `git2::Repository::branch`: creates a local branch of the
    /// given name pointing at the given commit, without moving HEAD or
    /// touching the working tree. The tip must be in the canonical
    /// rendering, so that the new branch's model tip is this very text.
    #[verifier::external_body]
    fn raw_create_branch(&mut self, name: &str, tip_hex: &str) -> (r: Result<(), GtError>)
        requires
            spec_canonical_hex(tip_hex@),
        ensures
            r is Ok ==> final(self)@ == spec_create_branch(old(self)@, name@, tip_hex@),
            r is Err ==> final(self)@ == old(self)@,
            r matches Err(e) ==> e is GitOperation,
    {
        let oid = git2::Oid::from_str(tip_hex).map_err(|e| GtError::GitOperation {
            message: format!("bad commit id: {}", e),
        })?;
        let commit = self.inner.find_commit(oid).map_err(|e| GtError::GitOperation {
            message: format!("base commit not found: {}", e),
        })?;
        self.inner.branch(name, &commit, false).map_err(|e| GtError::GitOperation {
            message: format!("cannot create branch: {}", e),
        })?;
        Ok(())
    }

    /// Relies on `git2::Repository::checkout_tree` (in its safe mode) and
    /// `set_head`: makes the working tree match the named local branch's
    /// tree and repoints HEAD at the branch. The safe mode refuses to
    /// overwrite uncommitted changes rather than discarding them; which
    /// uncommitted state survives a checkout that goes through is beyond
    /// this model, so only clean-stays-clean is claimed. On failure no ref
    /// has moved.
    #[verifier::external_body]
    fn raw_checkout_branch(&mut self, name: &str) -> (r: Result<(), GtError>)
        ensures
            r is Ok ==> spec_checkout_post(old(self)@, final(self)@, name@),
            r is Err ==> spec_refs_unchanged(old(self)@, final(self)@),
            r matches Err(e) ==> e is GitOperation,
    {
        let refname = format!("refs/heads/{}", name);
        let obj = self.inner.revparse_single(&refname).map_err(|e| GtError::GitOperation {
            message: format!("cannot resolve branch ref: {}", e),
        })?;
        self.inner.checkout_tree(&obj, None).map_err(|e| GtError::GitOperation {
            message: format!("cannot check out files: {}", e),
        })?;
        self.inner.set_head(&refname).map_err(|e| GtError::GitOperation {
            message: format!("cannot move HEAD: {}", e),
        })?;
        Ok(())
    }

    /// Relies on `git2::Branch::delete`: removes the named local branch
    /// ref; nothing else moves.
    #[verifier::external_body]
    fn raw_delete_branch(&mut self, name: &str) -> (r: Result<(), GtError>)
        ensures
            r is Ok ==> final(self)@ == (RepoModel {
                branches: old(self)@.branches.remove(name@),
                ..old(self)@
            }),
            r is Err ==> final(self)@ == old(self)@,
            r matches Err(e) ==> e is BranchNotFound || e is GitOperation,
    {
        let mut b = self.inner.find_branch(name, git2::BranchType::Local).map_err(|_| {
            GtError::BranchNotFound { branch: name.to_string() }
        })?;
        b.delete().map_err(|e| GtError::GitOperation {
            message: format!("cannot delete branch: {}", e),
        })?;
        Ok(())
    }

    /// Relies on `git2::Branch::upstream`: the name of the upstream branch
    /// a local branch tracks, where one is configured.
    #[verifier::external_body]
    fn raw_upstream_name(&self, name: &str) -> (r: Result<Option<String>, GtError>)
        ensures
            r matches Err(e) ==> e is BranchNotFound,
    {
        let b = self.inner.find_branch(name, git2::BranchType::Local).map_err(|_| {
            GtError::BranchNotFound { branch: name.to_string() }
        })?;
        match b.upstream() {
            Ok(up) => match up.name() {
                Ok(Some(n)) => Ok(Some(n.to_string())),
                _ => Ok(None),
            },
            Err(_) => Ok(None),
        }
    }

    /// Relies on `git2::Repository::merge_base`: the best common ancestor
    /// of the two commits.
    #[verifier::external_body]
    fn raw_merge_base(&self, a_hex: &str, b_hex: &str) -> (r: Result<String, GtError>)
        ensures
            r matches Err(e) ==> e is GitOperation,
    {
        let a = git2::Oid::from_str(a_hex).map_err(|e| GtError::GitOperation {
            message: format!("bad commit id: {}", e),
        })?;
        let b = git2::Oid::from_str(b_hex).map_err(|e| GtError::GitOperation {
            message: format!("bad commit id: {}", e),
        })?;
        match self.inner.merge_base(a, b) {
            Ok(oid) => Ok(oid.to_string()),
            Err(e) => Err(GtError::GitOperation {
                message: format!("cannot compute merge base: {}", e),
            }),
        }
    }

    /// Relies on `git2::Reference::set_target`, `set_head` and a forced
    /// `checkout_head`: moves the ref HEAD is on to the target commit and
    /// makes the working tree match it; a detached HEAD moves itself and
    /// no branch ref moves. A clean tree stays clean. The steps are
    /// separately fallible, so a failure may leave the ref already moved:
    /// only HEAD's place and the stash stack are promised unchanged then.
    #[verifier::external_body]
    fn raw_fast_forward_head(&mut self, target_hex: &str) -> (r: Result<(), GtError>)
        requires
            spec_canonical_hex(target_hex@),
        ensures
            r is Ok ==> spec_ff_post(old(self)@, final(self)@, target_hex@),
            r is Err ==> final(self)@.head == old(self)@.head && final(self)@.stashes == old(self)@.stashes && (final(self)@.branches == old(self)@.branches || (old(self)@.branches.contains_key(old(self)@.head) && final(self)@.branches == old(self)@.branches.insert(old(self)@.head, target_hex@))),
            r matches Err(e) ==> e is GitOperation,
    {
        let m = |e: git2::Error| GtError::GitOperation { message: format!("{}", e) };
        let oid = git2::Oid::from_str(target_hex).map_err(m)?;
        let refname = self.inner.head().map_err(m)?.name().map_err(m)?.to_string();
        self.inner.find_reference(&refname).map_err(m)?.set_target(oid, "fast-forward").map_err(
            m,
        )?;
        self.inner.set_head(&refname).map_err(m)?;
        self.inner.checkout_head(Some(git2::build::CheckoutBuilder::default().force())).map_err(
            m,
        )?;
        Ok(())
    }

    /// The name of the branch HEAD is on.
    pub fn current_branch(&self) -> (r: GtResult<String>)
        ensures
            r matches Ok(n) ==> n@ == self@.head,
            r matches Err(e) ==> e is CurrentBranchNotFound,
    {
        match self.raw_head_name() {
            Some(n) => Ok(n),
            None => Err(GtError::CurrentBranchNotFound),
        }
    }

    /// Whether a local branch of the name exists.
    pub fn branch_exists(&self, name: &str) -> (r: GtResult<bool>)
        ensures
            r matches Ok(b) ==> b == self@.branches.contains_key(name@),
            r matches Err(e) ==> e is GitOperation,
    {
        self.raw_branch_exists(name)
    }

    /// Creates a branch at the resolved base without moving HEAD.
    ///
    /// The name must satisfy the naming rule, and no branch of the name may
    /// exist yet; the base is an explicit branch (local, else
    /// remote-tracking), and the current HEAD commit otherwise.
    pub fn create_branch(&mut self, name: &str, base_branch: Option<&str>) -> (r: GtResult<()>)
        ensures
            !spec_valid_branch_name(name@) <==> (r matches Err(e) && e matches
                GtError::InvalidBranchName { name: n } && n@ == name@),
            r matches Err(e) && e is BranchAlreadyExists ==> old(self)@.branches.contains_key(
                name@,
            ),
            r is Ok ==> spec_valid_branch_name(name@) && !old(self)@.branches.contains_key(name@)
                && exists|tip: Seq<char>|
                final(self)@ == spec_create_branch(old(self)@, name@, tip),
            r is Ok && base_branch is None && old(self)@.branches.contains_key(old(self)@.head)
                ==> final(self)@ == spec_create_branch(
                old(self)@,
                name@,
                old(self)@.branches[old(self)@.head],
            ),
            r is Err ==> final(self)@ == old(self)@,
    {
        if !branch_name_is_valid(name) {
            return Err(GtError::InvalidBranchName { name: name.to_owned() });
        }
        if self.branch_exists(name)? {
            return Err(GtError::BranchAlreadyExists { branch: name.to_owned() });
        }
        let tip = match base_branch {
            Some(base) => {
                match self.raw_local_branch_tip(base) {
                    Ok(t) => t,
                    Err(_) => self.raw_remote_branch_tip(base)?,
                }
            },
            None => self.raw_head_tip()?,
        };
        self.raw_create_branch(name, tip.as_str())
    }

    /// Checks the named branch out: the working tree follows the branch's
    /// tree and HEAD lands on the branch. Uncommitted changes are not
    /// silently discarded: callers clear or stash them first.
    pub fn checkout_branch(&mut self, name: &str) -> (r: GtResult<()>)
        ensures
            r matches Err(e) && e is BranchNotFound ==> !old(self)@.branches.contains_key(name@)
                && final(self)@ == old(self)@,
            r is Ok ==> old(self)@.branches.contains_key(name@) && spec_checkout_post(
                old(self)@,
                final(self)@,
                name@,
            ),
            r is Err ==> spec_refs_unchanged(old(self)@, final(self)@),
    {
        if !self.branch_exists(name)? {
            return Err(GtError::BranchNotFound { branch: name.to_owned() });
        }
        self.raw_checkout_branch(name)
    }

    /// Creates a branch from the base and checks it out, as one
    /// orchestrated step. Where the checkout fails after the creation, the
    /// new branch remains and the caller handles it.
    pub fn create_and_checkout_branch(&mut self, name: &str, base_branch: Option<&str>) -> (r:
        GtResult<()>)
        ensures
            r is Ok ==> spec_valid_branch_name(name@) && final(self)@.head == name@
                && final(self)@.branches.contains_key(name@) && final(self)@.stashes == old(self)@.stashes && (spec_clean(old(self)@) ==> spec_clean(final(self)@)),
    {
        self.create_branch(name, base_branch)?;
        self.checkout_branch(name)?;
        Ok(())
    }

    /// Deletes a local branch. The current branch cannot be deleted; an
    /// unmerged branch is only deleted under `force`: without it, a branch
    /// whose tip is not an ancestor of its upstream tip is refused.
    pub fn delete_branch(&mut self, name: &str, force: bool) -> (r: GtResult<()>)
        ensures
            r matches Err(e) && e is OperationNotPermitted ==> name@ == old(self)@.head
                && final(self)@ == old(self)@,
            r is Ok ==> name@ != old(self)@.head && final(self)@ == (RepoModel {
                branches: old(self)@.branches.remove(name@),
                ..old(self)@
            }),
            r is Err ==> final(self)@ == old(self)@,
            r matches Err(e) ==> e is OperationNotPermitted || e is PreconditionFailed
                || e is BranchNotFound || e is GitOperation || e is CurrentBranchNotFound,
    {
        let current = self.current_branch()?;
        let name_owned = name.to_owned();
        if current.eq(&name_owned) {
            return Err(GtError::OperationNotPermitted {
                operation: "deleting the current branch".to_owned(),
            });
        }
        if !force {
            let upstream = self.raw_upstream_name(name)?;
            match upstream {
                Some(up) => {
                    let branch_tip = self.raw_local_branch_tip(name)?;
                    let upstream_tip = self.raw_remote_branch_tip(up.as_str())?;
                    let base = self.raw_merge_base(branch_tip.as_str(), upstream_tip.as_str())?;
                    if !base.eq(&branch_tip) {
                        return Err(GtError::PreconditionFailed {
                            condition:
                                "the branch is not fully merged into its upstream; delete it with force"
                                .to_owned(),
                        });
                    }
                },
                None => {},
            }
        }
        self.raw_delete_branch(name)
    }



    /// Relies on `git2::Repository::tag_lightweight`: creates a plain tag
    /// ref at the commit; branches, HEAD and the stash stack are not
    /// touched.
    #[verifier::external_body]
    fn raw_tag_lightweight(&self, name: &str, target_hex: &str) -> (r: Result<(), GtError>)
        ensures
            r matches Err(e) ==> e is GitOperation,
    {
        let m = |e: git2::Error| GtError::GitOperation { message: format!("{}", e) };
        let obj = self.inner.find_object(git2::Oid::from_str(target_hex).map_err(m)?, None)
            .map_err(m)?;
        self.inner.tag_lightweight(name, &obj, false).map_err(m)?;
        Ok(())
    }

    /// Relies on `git2::Repository::tag`: creates an annotated tag at the
    /// commit with the given identity and message; no branch moves.
    #[verifier::external_body]
    fn raw_tag_annotated(
        &self,
        name: &str,
        target_hex: &str,
        author: &str,
        email: &str,
        message: &str,
    ) -> (r: Result<(), GtError>)
        ensures
            r matches Err(e) ==> e is GitOperation,
    {
        let m = |e: git2::Error| GtError::GitOperation { message: format!("{}", e) };
        let obj = self.inner.find_object(git2::Oid::from_str(target_hex).map_err(m)?, None)
            .map_err(m)?;
        let sig = git2::Signature::now(author, email).map_err(m)?;
        self.inner.tag(name, &obj, &sig, message, false).map_err(m)?;
        Ok(())
    }

    /// Relies on `git2::Repository::tag_foreach`: every tag's full ref
    /// name.
    #[verifier::external_body]
    fn raw_tag_ref_names(&self) -> (r: Result<Vec<String>, GtError>)
        ensures
            r matches Err(e) ==> e is GitOperation,
    {
        let mut names = Vec::new();
        self.inner.tag_foreach(|_oid, name| {
            names.push(String::from_utf8_lossy(name).to_string());
            true
        }).map_err(|e| GtError::GitOperation { message: format!("{}", e) })?;
        Ok(names)
    }

    /// Relies on `git2::Repository::tag_delete`: removes the tag ref; no
    /// branch moves.
    #[verifier::external_body]
    fn raw_tag_delete(&self, name: &str) -> (r: Result<(), GtError>)
        ensures
            r matches Err(e) ==> e is GitOperation,
    {
        self.inner.tag_delete(name).map_err(|e| GtError::GitOperation {
            message: format!("cannot delete tag: {}", e),
        })
    }

    /// Creates a plain tag at the target revision, or at HEAD.
    pub fn create_lightweight_tag(&self, name: &str, target: Option<&str>) -> (r: GtResult<()>)
        ensures
            r matches Err(e) ==> e is GitOperation,
    {
        let tip = match target {
            Some(t) => self.resolve_commit(t)?,
            None => self.raw_head_tip()?,
        };
        self.raw_tag_lightweight(name, tip.as_str())
    }

    /// Creates an annotated tag at the target revision, or at HEAD, with
    /// the configured identity.
    pub fn create_annotated_tag(&self, name: &str, message: &str, target: Option<&str>) -> (r:
        GtResult<()>)
        ensures
            r matches Err(e) ==> e is GitOperation || e is ConfigError,
    {
        let tip = match target {
            Some(t) => self.resolve_commit(t)?,
            None => self.raw_head_tip()?,
        };
        let (author, email) = self.raw_user_identity()?;
        self.raw_tag_annotated(name, tip.as_str(), author.as_str(), email.as_str(), message)
    }

    /// The tag names, each with its ref prefix stripped.
    pub fn list_tags(&self) -> (r: GtResult<Vec<String>>)
        ensures
            r matches Err(e) ==> e is GitOperation,
    {
        let refs = self.raw_tag_ref_names()?;
        let mut tags: Vec<String> = Vec::new();
        let n = refs.len();
        let mut i: usize = 0;
        while i < n
            invariant
                0 <= i <= n,
                n == refs@.len(),
            decreases n - i,
        {
            match strip_prefix_str(refs[i].as_str(), "refs/tags/") {
                Some(short) => {
                    tags.push(short);
                },
                None => {},
            }
            i += 1;
        }
        Ok(tags)
    }

    /// Deletes a tag.
    pub fn delete_tag(&self, name: &str) -> (r: GtResult<()>)
        ensures
            r matches Err(e) ==> e is GitOperation,
    {
        self.raw_tag_delete(name)
    }

    /// Relies on `git2::Tree::get_path` on HEAD's tree: the blob id and
    /// file mode a path has in the HEAD commit, where the path is there
    /// at all.
    #[verifier::external_body]
    fn raw_head_tree_entry(&self, path: &str) -> (r: Result<Option<(String, u32)>, GtError>)
        ensures
            r matches Err(e) ==> e is GitOperation,
    {
        let m = |e: git2::Error| GtError::GitOperation { message: format!("{}", e) };
        let tree = self.inner.head().map_err(m)?.peel_to_commit().map_err(m)?.tree().map_err(m)?;
        match tree.get_path(std::path::Path::new(path)) {
            Ok(entry) => Ok(Some((entry.id().to_string(), entry.filemode() as u32))),
            Err(_) => Ok(None),
        }
    }

    /// Relies on `git2::Repository::revwalk` from HEAD in time order: up
    /// to `max` commit ids, newest first.
    #[verifier::external_body]
    fn raw_history_oids(&self, max: usize) -> (r: Result<Vec<String>, GtError>)
        ensures
            r matches Err(e) ==> e is GitOperation,
    {
        let m = |e: git2::Error| GtError::GitOperation { message: format!("{}", e) };
        let mut walk = self.inner.revwalk().map_err(m)?;
        walk.push_head().map_err(m)?;
        walk.set_sorting(git2::Sort::TIME).map_err(m)?;
        let mut v = Vec::new();
        for oid in walk.take(max) {
            v.push(oid.map_err(m)?.to_string());
        }
        Ok(v)
    }

    /// Relies on `git2::Repository::find_commit` and the commit
    /// accessors: the fields of one commit.
    #[verifier::external_body]
    fn raw_commit_info(&self, oid_hex: &str) -> (r: Result<Commit, GtError>)
        ensures
            r matches Err(e) ==> e is GitOperation,
    {
        let m = |e: git2::Error| GtError::GitOperation { message: format!("{}", e) };
        let commit = self.inner.find_commit(git2::Oid::from_str(oid_hex).map_err(m)?).map_err(
            m,
        )?;
        let author = commit.author();
        Ok(Commit {
            id: commit.id().to_string(),
            message: commit.message().unwrap_or("").to_string(),
            author: author.name().unwrap_or("").to_string(),
            author_email: author.email().unwrap_or("").to_string(),
            time: author.when().seconds(),
            parents: commit.parent_ids().map(|id| id.to_string()).collect(),
        })
    }

    /// Relies on `git2::Repository::diff_tree_to_tree`: for each delta
    /// between the two commits' trees, the old and the new path.
    #[verifier::external_body]
    fn raw_diff_paths(&self, from_hex: &str, to_hex: &str) -> (r: Result<
        Vec<(Option<String>, Option<String>)>,
        GtError,
    >)
        ensures
            r matches Err(e) ==> e is GitOperation,
    {
        let m = |e: git2::Error| GtError::GitOperation { message: format!("{}", e) };
        let ft = self.inner.find_commit(git2::Oid::from_str(from_hex).map_err(m)?).map_err(m)?.tree().map_err(m)?;
        let tt = self.inner.find_commit(git2::Oid::from_str(to_hex).map_err(m)?).map_err(m)?.tree().map_err(m)?;
        let diff = self.inner.diff_tree_to_tree(Some(&ft), Some(&tt), None).map_err(m)?;
        let mut v = Vec::new();
        diff.foreach(&mut |d, _| {
            v.push(convert_delta(&d));
            true
        }, None, None, None).map_err(m)?;
        Ok(v)
    }

    /// Takes the given paths out of the staging area: a path that HEAD
    /// holds goes back to HEAD's version in the index, one that HEAD
    /// lacks leaves the index. No ref moves.
    pub fn unstage_files(&mut self, files: &Vec<String>) -> (r: GtResult<()>)
        ensures
            spec_refs_unchanged(old(self)@, final(self)@),
            r matches Err(e) ==> e is GitOperation,
    {
        let mut idx = self.raw_open_index()?;
        let n = files.len();
        let mut i: usize = 0;
        while i < n
            invariant
                0 <= i <= n,
                n == files@.len(),
            decreases n - i,
        {
            match self.raw_head_tree_entry(files[i].as_str())? {
                Some((id, mode)) => {
                    raw_index_add_head_entry(&mut idx, files[i].as_str(), id.as_str(), mode)?;
                },
                None => {
                    raw_index_remove_path(&mut idx, files[i].as_str())?;
                },
            }
            i += 1;
        }
        self.raw_index_write(&mut idx)
    }

    /// Takes everything out of the staging area: the index goes back to
    /// HEAD's tree. No ref moves.
    pub fn unstage_all(&mut self) -> (r: GtResult<()>)
        ensures
            spec_refs_unchanged(old(self)@, final(self)@),
            r matches Err(e) ==> e is GitOperation,
    {
        let mut idx = self.raw_open_index()?;
        self.raw_index_read_head_tree(&mut idx)?;
        self.raw_index_write(&mut idx)
    }

    /// Relies on `git2::Index::read_tree` with HEAD's tree: the index
    /// forgets the staged changes.
    #[verifier::external_body]
    fn raw_index_read_head_tree(&self, idx: &mut git2::Index) -> (r: Result<(), GtError>)
        ensures
            r matches Err(e) ==> e is GitOperation,
    {
        let m = |e: git2::Error| GtError::GitOperation { message: format!("{}", e) };
        let tree = self.inner.head().map_err(m)?.peel_to_commit().map_err(m)?.tree().map_err(m)?;
        idx.read_tree(&tree).map_err(m)
    }

    /// The recent history: `count` commits, newest first, after skipping
    /// the newest `skip`.
    pub fn get_commit_history(&self, count: usize, skip: usize) -> (r: GtResult<Vec<Commit>>)
        ensures
            r matches Ok(v) ==> v@.len() <= count,
            r matches Err(e) ==> e is GitOperation,
    {
        let max = if usize::MAX - skip >= count {
            skip + count
        } else {
            usize::MAX
        };
        let oids = self.raw_history_oids(max)?;
        let mut commits: Vec<Commit> = Vec::new();
        let n = oids.len();
        let mut i = skip;
        while i < n
            invariant
                skip <= i,
                n == oids@.len(),
                commits@.len() <= count,
            decreases n - i,
        {
            if commits.len() >= count {
                break;
            }
            commits.push(self.raw_commit_info(oids[i].as_str())?);
            i += 1;
        }
        Ok(commits)
    }

    /// The paths touched between two commits, old and new side of each
    /// delta, without duplicates.
    pub fn get_diff_files(&self, from: &str, to: &str) -> (r: GtResult<Vec<String>>)
        ensures
            r matches Ok(v) ==> forall|i: int, j: int|
                0 <= i < j < v@.len() ==> v@[i]@ != v@[j]@,
            r matches Err(e) ==> e is GitOperation,
    {
        let from_tip = self.resolve_commit(from)?;
        let to_tip = self.resolve_commit(to)?;
        let pairs = self.raw_diff_paths(from_tip.as_str(), to_tip.as_str())?;
        let mut files: Vec<String> = Vec::new();
        let n = pairs.len();
        let mut i: usize = 0;
        while i < n
            invariant
                0 <= i <= n,
                n == pairs@.len(),
                forall|a: int, b: int| 0 <= a < b < files@.len() ==> files@[a]@ != files@[b]@,
            decreases n - i,
        {
            match &pairs[i].0 {
                Some(old_path) => {
                    if !vec_contains_string(&files, old_path) {
                        files.push(old_path.clone());
                    }
                },
                None => {},
            }
            match &pairs[i].1 {
                Some(new_path) => {
                    if !vec_contains_string(&files, new_path) {
                        files.push(new_path.clone());
                    }
                },
                None => {},
            }
            i += 1;
        }
        Ok(files)
    }

    /// Relies on `git2::Repository::merge_trees`: merges the two commits'
    /// trees against their ancestor's tree into an in-memory index, leaving
    /// the working tree and the refs alone.
    #[verifier::external_body]
    fn raw_merge_trees(&self, ancestor_hex: &str, our_hex: &str, their_hex: &str) -> (r: Result<
        git2::Index,
        GtError,
    >)
        ensures
            r matches Err(e) ==> e is GitOperation,
    {
        let m = |e: git2::Error| GtError::GitOperation { message: format!("{}", e) };
        let at = self.inner.find_commit(git2::Oid::from_str(ancestor_hex).map_err(m)?).map_err(
            m,
        )?.tree().map_err(m)?;
        let ot = self.inner.find_commit(git2::Oid::from_str(our_hex).map_err(m)?).map_err(
            m,
        )?.tree().map_err(m)?;
        let tt = self.inner.find_commit(git2::Oid::from_str(their_hex).map_err(m)?).map_err(
            m,
        )?.tree().map_err(m)?;
        self.inner.merge_trees(&at, &ot, &tt, None).map_err(m)
    }

    /// Relies on `git2::Repository::commit` with `HEAD` as the ref to
    /// update: writes the index as a tree and commits it with the two
    /// parents, moving the current branch (or a detached HEAD) to the new
    /// commit.
    #[verifier::external_body]
    fn raw_commit_index(
        &mut self,
        idx: &mut git2::Index,
        message: &str,
        name: &str,
        email: &str,
        ours_hex: &str,
        theirs_hex: &str,
    ) -> (r: Result<String, GtError>)
        ensures
            r matches Ok(oid) ==> final(self)@.head == old(self)@.head && final(self)@.stashes
                == old(self)@.stashes && (final(self)@.branches == old(self)@.branches || final(self)@.branches == old(self)@.branches.insert(old(self)@.head, oid@)),
            r is Err ==> spec_refs_unchanged(old(self)@, final(self)@),
            r matches Err(e) ==> e is GitOperation,
    {
        let m = |e: git2::Error| GtError::GitOperation { message: format!("{}", e) };
        let sig = git2::Signature::now(name, email).map_err(m)?;
        let tree = self.inner.find_tree(idx.write_tree_to(&self.inner).map_err(m)?).map_err(m)?;
        let a = self.inner.find_commit(git2::Oid::from_str(ours_hex).map_err(m)?).map_err(m)?;
        let b = self.inner.find_commit(git2::Oid::from_str(theirs_hex).map_err(m)?).map_err(m)?;
        Ok(self.inner.commit(Some("HEAD"), &sig, &sig, message, &tree, &[&a, &b]).map_err(
            m,
        )?.to_string())
    }

    /// Relies on `git2::Repository::commit` with `HEAD` as the ref to
    /// update: writes the staged index as a tree and commits it onto the
    /// current HEAD commit, moving the current branch (or a detached HEAD)
    /// to the new commit.
    #[verifier::external_body]
    fn raw_commit_staged(&mut self, name: &str, email: &str, message: &str) -> (r: Result<
        String,
        GtError,
    >)
        ensures
            r matches Ok(oid) ==> final(self)@.head == old(self)@.head && final(self)@.stashes
                == old(self)@.stashes && (final(self)@.branches == old(self)@.branches || final(self)@.branches == old(self)@.branches.insert(old(self)@.head, oid@)),
            r is Err ==> spec_refs_unchanged(old(self)@, final(self)@),
            r matches Err(e) ==> e is GitOperation,
    {
        let m = |e: git2::Error| GtError::GitOperation { message: format!("{}", e) };
        let sig = git2::Signature::now(name, email).map_err(m)?;
        let parent = self.inner.head().map_err(m)?.peel_to_commit().map_err(m)?;
        let mut index = self.inner.index().map_err(m)?;
        let tid = index.write_tree().map_err(m)?;
        let tree = self.inner.find_tree(tid).map_err(m)?;
        let oid = self.inner.commit(Some("HEAD"), &sig, &sig, message, &tree, &[&parent])
            .map_err(m)?;
        Ok(oid.to_string())
    }

    /// Relies on `git2::Config::get_string` for `user.name` and
    /// `user.email`: the identity commits are authored with; a missing
    /// entry is a configuration error.
    #[verifier::external_body]
    fn raw_user_identity(&self) -> (r: Result<(String, String), GtError>)
        ensures
            r matches Err(e) ==> e is ConfigError,
    {
        let cfg = self.inner.config().map_err(|e| GtError::ConfigError {
            message: format!("cannot read the configuration: {}", e),
        })?;
        let name = cfg.get_string("user.name").map_err(|_| GtError::ConfigError {
            message: "user.name is not configured".to_string(),
        })?;
        let email = cfg.get_string("user.email").map_err(|_| GtError::ConfigError {
            message: "user.email is not configured".to_string(),
        })?;
        Ok((name, email))
    }

    /// Relies on `git2::Repository::statuses` with ignored files excluded:
    /// one entry per changed path, each converted to its flags; with
    /// untracked files included the listing is empty exactly on a clean
    /// tree, and a clean tree yields no entries either way.
    #[verifier::external_body]
    fn raw_status_entries(&self, include_untracked: bool) -> (r: Result<Vec<StatusEntry>, GtError>)
        ensures
            r matches Ok(v) ==> (include_untracked ==> ((v@.len() == 0) <==> spec_clean(
                repo_model(*self),
            ))),
            r matches Ok(v) ==> (spec_clean(repo_model(*self)) ==> v@.len() == 0),
            r matches Err(e) ==> e is GitOperation,
    {
        let sts = self.inner.statuses(Some(git2::StatusOptions::new().include_untracked(
            include_untracked,
        ).include_ignored(false))).map_err(|e| GtError::GitOperation {
            message: format!("{}", e),
        })?;
        let mut v = Vec::new();
        for e in sts.iter() {
            v.push(convert_status_entry(e.path().unwrap_or(""), e.status()));
        }
        Ok(v)
    }

    /// Relies on `git2::Repository::refname_to_id`: the commit a full ref
    /// name points at, where the ref exists.
    #[verifier::external_body]
    fn raw_refname_to_id(&self, refname: &str) -> (r: Option<String>) {
        match self.inner.refname_to_id(refname) {
            Ok(oid) => Some(oid.to_string()),
            Err(_) => None,
        }
    }

    /// Relies on `git2::Repository::graph_ahead_behind`: how many commits
    /// each side has that the other lacks.
    #[verifier::external_body]
    fn raw_graph_ahead_behind(&self, local_hex: &str, remote_hex: &str) -> (r: Result<
        (usize, usize),
        GtError,
    >)
        ensures
            r matches Err(e) ==> e is GitOperation,
    {
        let m = |e: git2::Error| GtError::GitOperation { message: format!("{}", e) };
        let local = git2::Oid::from_str(local_hex).map_err(m)?;
        let remote = git2::Oid::from_str(remote_hex).map_err(m)?;
        self.inner.graph_ahead_behind(local, remote).map_err(m)
    }

    /// Relies on `git2::Repository::index`: the repository's index, opened
    /// for staging.
    #[verifier::external_body]
    fn raw_open_index(&self) -> (r: Result<git2::Index, GtError>)
        ensures
            r matches Err(e) ==> e is GitOperation,
    {
        self.inner.index().map_err(|e| GtError::GitOperation { message: format!("{}", e) })
    }

    /// Relies on `git2::Index::write`: persists the staged entries; no ref
    /// moves.
    #[verifier::external_body]
    fn raw_index_write(&mut self, idx: &mut git2::Index) -> (r: Result<(), GtError>)
        ensures
            spec_refs_unchanged(old(self)@, final(self)@),
            r matches Err(e) ==> e is GitOperation,
    {
        idx.write().map_err(|e| GtError::GitOperation {
            message: format!("cannot write the index: {}", e),
        })
    }

    /// Relies on `git2::Repository::stash_save` with untracked files
    /// included: saves the uncommitted state as the newest stash entry and
    /// reverts the working tree to HEAD's clean state.
    #[verifier::external_body]
    fn raw_stash_save(&mut self, name: &str, email: &str, message: &str) -> (r: Result<(), GtError>)
        ensures
            r is Ok ==> final(self)@ == spec_stash_save(old(self)@),
            r is Err ==> final(self)@ == old(self)@,
            r matches Err(e) ==> e is GitOperation,
    {
        let m = |e: git2::Error| GtError::GitOperation { message: format!("{}", e) };
        let sig = git2::Signature::now(name, email).map_err(m)?;
        self.inner.stash_save(&sig, message, Some(git2::StashFlags::INCLUDE_UNTRACKED)).map_err(
            m,
        )?;
        Ok(())
    }

    /// Relies on `git2::Repository::stash_pop` with the index reinstated:
    /// applies the entry at the index and drops it only if the application
    /// succeeded; onto the clean state of the tip it was saved at, the
    /// saved worktree and index state come back exactly. On a conflict the
    /// entry is kept and no ref moves.
    #[verifier::external_body]
    fn raw_stash_pop(&mut self, index: usize) -> (r: Result<(), GtError>)
        ensures
            r is Ok ==> spec_stash_pop_post(old(self)@, final(self)@, index as int),
            r is Err ==> spec_refs_unchanged(old(self)@, final(self)@) && final(self)@.stashes
                == old(self)@.stashes,
            r matches Err(e) ==> e is StashConflict || e is GitOperation,
    {
        let mut opts = git2::StashApplyOptions::new();
        opts.reinstantiate_index();
        match self.inner.stash_pop(index, Some(&mut opts)) {
            Ok(()) => Ok(()),
            Err(e) if e.code() == git2::ErrorCode::Conflict || e.code()
                == git2::ErrorCode::MergeConflict => Err(GtError::StashConflict),
            Err(e) => Err(GtError::GitOperation { message: format!("{}", e) }),
        }
    }

    /// Relies on `git2::Repository::stash_apply` with the index
    /// reinstated: applies the entry at the index without dropping it;
    /// onto the clean state of the tip it was saved at, the saved state
    /// comes back exactly. No ref moves either way.
    #[verifier::external_body]
    fn raw_stash_apply(&mut self, index: usize) -> (r: Result<(), GtError>)
        ensures
            r is Ok ==> index < old(self)@.stashes.len() && spec_refs_unchanged(
                old(self)@,
                final(self)@,
            ) && final(self)@.stashes == old(self)@.stashes && (spec_clean(old(self)@) && old(self)@.branches.contains_key(old(self)@.head) && old(self)@.branches[old(self)@.head]
                == old(self)@.stashes[index as int].base ==> final(self)@.worktree == old(self)@.stashes[index as int].state),
            r is Err ==> spec_refs_unchanged(old(self)@, final(self)@) && final(self)@.stashes
                == old(self)@.stashes,
            r matches Err(e) ==> e is StashConflict || e is GitOperation,
    {
        let mut opts = git2::StashApplyOptions::new();
        opts.reinstantiate_index();
        match self.inner.stash_apply(index, Some(&mut opts)) {
            Ok(()) => Ok(()),
            Err(e) if e.code() == git2::ErrorCode::Conflict || e.code()
                == git2::ErrorCode::MergeConflict => Err(GtError::StashConflict),
            Err(e) => Err(GtError::GitOperation { message: format!("{}", e) }),
        }
    }

    /// Relies on `git2::Repository::stash_foreach`: walks the stash stack
    /// newest first and hands out one message per entry.
    #[verifier::external_body]
    fn raw_stash_messages(&mut self) -> (r: Result<Vec<String>, GtError>)
        ensures
            final(self)@ == old(self)@,
            r matches Ok(v) ==> v@.len() == old(self)@.stashes.len(),
            r matches Err(e) ==> e is GitOperation,
    {
        let mut msgs = Vec::new();
        self.inner.stash_foreach(|_idx, message, _oid| {
            msgs.push(message.to_string());
            true
        }).map_err(|e| GtError::GitOperation { message: format!("{}", e) })?;
        Ok(msgs)
    }

    /// Relies on `git2::Remote::push` with credentials from the ssh agent:
    /// sends the refspec to the named remote; no local ref moves.
    #[verifier::external_body]
    fn raw_push(&self, remote: &str, refspec: &str) -> (r: Result<(), GtError>)
        ensures
            r matches Err(e) ==> e is PushFailed || e is RemoteNotFound,
    {
        let mut rem = self.inner.find_remote(remote).map_err(|_| GtError::RemoteNotFound {
            remote: remote.to_string(),
        })?;
        let mut callbacks = git2::RemoteCallbacks::new();
        callbacks.credentials(|_url, username_from_url, _allowed| {
            git2::Cred::ssh_key_from_agent(username_from_url.unwrap_or("git"))
        });
        let mut opts = git2::PushOptions::new();
        opts.remote_callbacks(callbacks);
        rem.push(&[refspec], Some(&mut opts)).map_err(|e| GtError::PushFailed {
            reason: format!("{}", e),
        })
    }

    /// Relies on `git2::Remote::fetch` with credentials from the ssh
    /// agent: updates the remote-tracking refs of the named remote; no
    /// local branch moves.
    #[verifier::external_body]
    fn raw_fetch(&self, remote: &str) -> (r: Result<(), GtError>)
        ensures
            r matches Err(e) ==> e is RemoteNotFound || e is GitOperation,
    {
        let mut rem = self.inner.find_remote(remote).map_err(|_| GtError::RemoteNotFound {
            remote: remote.to_string(),
        })?;
        let mut callbacks = git2::RemoteCallbacks::new();
        callbacks.credentials(|_url, username_from_url, _allowed| {
            git2::Cred::ssh_key_from_agent(username_from_url.unwrap_or("git"))
        });
        let mut opts = git2::FetchOptions::new();
        opts.remote_callbacks(callbacks);
        rem.fetch(&[] as &[String], Some(&mut opts), None).map_err(|e| GtError::GitOperation {
            message: format!("cannot fetch: {}", e),
        })
    }

    /// Relies on `git2::Repository::remotes`: the names of the configured
    /// remotes.
    #[verifier::external_body]
    fn raw_remote_names(&self) -> (r: Result<Vec<String>, GtError>)
        ensures
            r matches Err(e) ==> e is GitOperation,
    {
        let names = self.inner.remotes().map_err(|e| GtError::GitOperation {
            message: format!("{}", e),
        })?;
        let mut v = Vec::new();
        for n in names.iter() {
            if let Ok(Some(n)) = n {
                v.push(n.to_string());
            }
        }
        Ok(v)
    }

    /// Relies on `git2::Repository::find_remote`: whether a remote of the
    /// name is configured.
    #[verifier::external_body]
    fn raw_remote_exists(&self, name: &str) -> (r: Result<bool, GtError>)
        ensures
            r matches Err(e) ==> e is GitOperation,
    {
        match self.inner.find_remote(name) {
            Ok(_) => Ok(true),
            Err(e) if e.code() == git2::ErrorCode::NotFound => Ok(false),
            Err(e) => Err(GtError::GitOperation { message: format!("{}", e) }),
        }
    }

    /// Relies on `git2::Remote::url` and `pushurl`: the addresses of a
    /// configured remote.
    #[verifier::external_body]
    fn raw_remote_info(&self, name: &str) -> (r: Result<(String, Option<String>), GtError>)
        ensures
            r matches Err(e) ==> e is RemoteNotFound,
    {
        let rem = self.inner.find_remote(name).map_err(|_| GtError::RemoteNotFound {
            remote: name.to_string(),
        })?;
        let url = rem.url().unwrap_or("").to_string();
        let push_url = rem.pushurl().ok().flatten().map(|s| s.to_string());
        Ok((url, push_url))
    }

    /// Relies on `git2::Repository::remote`: adds a remote under the name;
    /// no local ref moves.
    #[verifier::external_body]
    fn raw_add_remote(&self, name: &str, url: &str) -> (r: Result<(), GtError>)
        ensures
            r matches Err(e) ==> e is GitOperation,
    {
        self.inner.remote(name, url).map_err(|e| GtError::GitOperation {
            message: format!("cannot add remote: {}", e),
        })?;
        Ok(())
    }

    /// Relies on `git2::Repository::reset`: moves HEAD's branch to the
    /// target commit; soft keeps index and tree, mixed resets the index,
    /// hard also resets the tracked files of the working tree. The target
    /// must be in the canonical rendering.
    #[verifier::external_body]
    fn raw_reset(&mut self, target_hex: &str, kind: ResetType) -> (r: Result<(), GtError>)
        requires
            spec_canonical_hex(target_hex@),
        ensures
            r is Ok ==> final(self)@.head == old(self)@.head && final(self)@.stashes == old(self)@.stashes && (final(self)@.branches == old(self)@.branches || final(self)@.branches
                == old(self)@.branches.insert(old(self)@.head, target_hex@)),
            r is Err ==> spec_refs_unchanged(old(self)@, final(self)@),
            r matches Err(e) ==> e is GitOperation,
    {
        let m = |e: git2::Error| GtError::GitOperation { message: format!("{}", e) };
        let obj = self.inner.find_object(git2::Oid::from_str(target_hex).map_err(m)?, None)
            .map_err(m)?;
        let raw_kind = match kind {
            ResetType::Soft => git2::ResetType::Soft,
            ResetType::Mixed => git2::ResetType::Mixed,
            ResetType::Hard => git2::ResetType::Hard,
        };
        self.inner.reset(&obj, raw_kind, None).map_err(m)
    }

    /// Whether the working tree and index are entirely clean: no
    /// uncommitted change, nothing staged, no untracked file.
    pub fn is_clean(&self) -> (r: GtResult<bool>)
        ensures
            r matches Ok(b) ==> b == spec_clean(self@),
            r matches Err(e) ==> e is GitOperation,
    {
        let entries = self.raw_status_entries(true)?;
        Ok(entries.len() == 0)
    }

    /// Whether any tracked path carries an uncommitted change.
    pub fn has_uncommitted_changes(&self) -> (r: GtResult<bool>)
        ensures
            r matches Ok(b) ==> (spec_clean(self@) ==> !b),
            r matches Err(e) ==> e is GitOperation,
    {
        let entries = self.raw_status_entries(false)?;
        Ok(entries.len() > 0)
    }

    /// Whether any untracked file exists.
    pub fn has_untracked_files(&self) -> (r: GtResult<bool>)
        ensures
            r matches Ok(b) ==> (spec_clean(self@) ==> !b),
            r matches Err(e) ==> e is GitOperation,
    {
        let entries = self.raw_status_entries(true)?;
        let mut i: usize = 0;
        let n = entries.len();
        let mut found = false;
        while i < n
            invariant
                0 <= i <= n,
                n == entries@.len(),
                found == (exists|j: int| 0 <= j < i && spec_entry_untracked(#[trigger] entries@[j])),
            decreases n - i,
        {
            if entries[i].wt_new {
                found = true;
            }
            i += 1;
        }
        Ok(found)
    }

    /// The full working-tree classification, computed on demand.
    pub fn check_status(&self) -> (r: GtResult<WorkingTreeStatus>)
        ensures
            r matches Ok(ws) ==> (spec_clean(self@) ==> !ws.has_uncommitted_changes
                && !ws.has_untracked_files && !ws.has_staged_changes && ws.modified_files == 0
                && ws.added_files == 0 && ws.deleted_files == 0 && ws.untracked_files == 0),
            r matches Err(e) ==> e is GitOperation,
    {
        let entries = self.raw_status_entries(true)?;
        Ok(classify_worktree(&entries))
    }

    /// The compact per-bucket summary of the working tree.
    pub fn status_summary(&self) -> (r: GtResult<RepositoryStatus>)
        ensures
            r matches Ok(st) ==> (spec_clean(self@) ==> st.staged == 0 && st.modified == 0
                && st.untracked == 0),
            r matches Err(e) ==> e is GitOperation,
    {
        let entries = self.raw_status_entries(true)?;
        Ok(summarize_status(&entries))
    }

    /// The relation of the current branch to its remote-tracking ref under
    /// the named remote, classified by [`classify_sync`].
    pub fn sync_status(&self, remote_name: &str) -> (r: GtResult<SyncStatus>)
        ensures
            r matches Err(e) ==> e is CurrentBranchNotFound || e is GitOperation,
    {
        let current = self.current_branch()?;
        let mut local_ref = "refs/heads/".to_owned();
        local_ref.append(current.as_str());
        let mut remote_ref = "refs/remotes/".to_owned();
        remote_ref.append(remote_name);
        remote_ref.append("/");
        remote_ref.append(current.as_str());
        let local = self.raw_refname_to_id(local_ref.as_str());
        let remote = self.raw_refname_to_id(remote_ref.as_str());
        match (&local, &remote) {
            (Some(l), Some(rm)) => {
                if l.eq(rm) {
                    Ok(SyncStatus::UpToDate)
                } else {
                    let (ahead, behind) = self.raw_graph_ahead_behind(l.as_str(), rm.as_str())?;
                    Ok(classify_sync(local.as_ref(), remote.as_ref(), ahead, behind))
                }
            },
            _ => Ok(classify_sync(local.as_ref(), remote.as_ref(), 0, 0)),
        }
    }

    /// Whether a remote-tracking branch `<remote>/<branch>` exists.
    pub fn remote_branch_exists(&self, remote: &str, branch: &str) -> bool {
        let mut name = remote.to_owned();
        name.append("/");
        name.append(branch);
        match self.raw_remote_branch_tip(name.as_str()) {
            Ok(_) => true,
            Err(_) => false,
        }
    }

    /// Whether a remote of the name is configured.
    pub fn remote_exists(&self, name: &str) -> (r: GtResult<bool>)
        ensures
            r matches Err(e) ==> e is GitOperation,
    {
        self.raw_remote_exists(name)
    }

    /// The configured remotes with their addresses.
    pub fn list_remotes(&self) -> (r: GtResult<Vec<Remote>>)
        ensures
            r matches Err(e) ==> e is GitOperation || e is RemoteNotFound,
    {
        let names = self.raw_remote_names()?;
        let mut remotes: Vec<Remote> = Vec::new();
        let n = names.len();
        let mut i: usize = 0;
        while i < n
            invariant
                0 <= i <= n,
                n == names@.len(),
            decreases n - i,
        {
            let name = names[i].clone();
            match self.raw_remote_info(name.as_str()) {
                Ok((url, push_url)) => {
                    remotes.push(Remote { name, url, push_url });
                },
                Err(_) => {},
            }
            i += 1;
        }
        Ok(remotes)
    }

    /// One configured remote with its addresses.
    pub fn get_remote(&self, name: &str) -> (r: GtResult<Remote>)
        ensures
            r matches Ok(rem) ==> rem.name@ == name@,
            r matches Err(e) ==> e is RemoteNotFound,
    {
        let (url, push_url) = self.raw_remote_info(name)?;
        Ok(Remote { name: name.to_owned(), url, push_url })
    }

    /// Adds a remote under the name.
    pub fn add_remote(&self, name: &str, url: &str) -> (r: GtResult<()>)
        ensures
            r matches Err(e) ==> e is GitOperation,
    {
        self.raw_add_remote(name, url)
    }

    /// The local branches, each with its upstream where one is configured,
    /// and the current one marked.
    pub fn list_branches(&self) -> (r: GtResult<Vec<Branch>>)
        ensures
            r matches Err(e) ==> e is GitOperation,
    {
        let current = match self.raw_head_name() {
            Some(n) => n,
            None => String::new(),
        };
        let names = self.raw_branch_names()?;
        let mut branches: Vec<Branch> = Vec::new();
        let n = names.len();
        let mut i: usize = 0;
        while i < n
            invariant
                0 <= i <= n,
                n == names@.len(),
            decreases n - i,
        {
            let name = names[i].clone();
            let is_current = name.eq(&current);
            let upstream = match self.raw_upstream_name(name.as_str()) {
                Ok(u) => u,
                Err(_) => None,
            };
            let last_commit = match self.raw_local_branch_tip(name.as_str()) {
                Ok(t) => Some(t),
                Err(_) => None,
            };
            branches.push(
                Branch {
                    name,
                    is_current,
                    is_remote: false,
                    upstream,
                    ahead: 0,
                    behind: 0,
                    last_commit,
                },
            );
            i += 1;
        }
        Ok(branches)
    }

    /// Relies on `git2::Repository::branches` over the local kind: the
    /// names of the local branches.
    #[verifier::external_body]
    fn raw_branch_names(&self) -> (r: Result<Vec<String>, GtError>)
        ensures
            r matches Err(e) ==> e is GitOperation,
    {
        let m = |e: git2::Error| GtError::GitOperation { message: format!("{}", e) };
        let iter = self.inner.branches(Some(git2::BranchType::Local)).map_err(m)?;
        let mut v = Vec::new();
        for item in iter {
            let (b, _) = item.map_err(m)?;
            if let Ok(Some(name)) = b.name() {
                v.push(name.to_string());
            }
        }
        Ok(v)
    }

    /// Stages the given paths.
    pub fn add_files(&mut self, files: &Vec<String>) -> (r: GtResult<()>)
        ensures
            spec_refs_unchanged(old(self)@, final(self)@),
            r matches Err(e) ==> e is GitOperation,
    {
        let mut idx = self.raw_open_index()?;
        let n = files.len();
        let mut i: usize = 0;
        while i < n
            invariant
                0 <= i <= n,
                n == files@.len(),
            decreases n - i,
        {
            raw_index_add_path(&mut idx, files[i].as_str())?;
            i += 1;
        }
        self.raw_index_write(&mut idx)
    }

    /// Stages every change in the working tree.
    pub fn add_all(&mut self) -> (r: GtResult<()>)
        ensures
            spec_refs_unchanged(old(self)@, final(self)@),
            r matches Err(e) ==> e is GitOperation,
    {
        let mut idx = self.raw_open_index()?;
        raw_index_add_all(&mut idx)?;
        self.raw_index_write(&mut idx)
    }

    /// Commits the staged index onto HEAD with the configured identity.
    pub fn create_commit(&mut self, message: &str) -> (r: GtResult<()>)
        ensures
            r is Ok ==> final(self)@.head == old(self)@.head && final(self)@.stashes == old(self)@.stashes && (final(self)@.branches == old(self)@.branches || exists|t: Seq<char>|
                final(self)@.branches == old(self)@.branches.insert(old(self)@.head, t)),
            r is Err ==> spec_refs_unchanged(old(self)@, final(self)@),
            r matches Err(e) ==> e is ConfigError || e is GitOperation,
    {
        let (name, email) = self.raw_user_identity()?;
        let _oid = self.raw_commit_staged(name.as_str(), email.as_str(), message)?;
        Ok(())
    }

    /// The most recent commit, as the history reports it.
    pub fn get_latest_commit(&self) -> (r: GtResult<Commit>)
        ensures
            r matches Err(e) ==> e is GitOperation,
    {
        self.raw_head_commit_info()
    }

    /// Relies on `git2::Repository::head` and the commit accessors: the
    /// fields of the commit HEAD points at.
    #[verifier::external_body]
    fn raw_head_commit_info(&self) -> (r: Result<Commit, GtError>)
        ensures
            r matches Err(e) ==> e is GitOperation,
    {
        let m = |e: git2::Error| GtError::GitOperation { message: format!("{}", e) };
        let commit = self.inner.head().map_err(m)?.peel_to_commit().map_err(m)?;
        let author = commit.author();
        Ok(Commit {
            id: commit.id().to_string(),
            message: commit.message().unwrap_or("").to_string(),
            author: author.name().unwrap_or("").to_string(),
            author_email: author.email().unwrap_or("").to_string(),
            time: author.when().seconds(),
            parents: commit.parent_ids().map(|id| id.to_string()).collect(),
        })
    }

    /// Sends a branch (the current one by default) to the named remote.
    pub fn push(&self, remote: &str, branch: Option<&str>) -> (r: GtResult<()>)
        ensures
            r matches Err(e) ==> e is PushFailed || e is RemoteNotFound
                || e is CurrentBranchNotFound,
    {
        let name = match branch {
            Some(b) => b.to_owned(),
            None => self.current_branch()?,
        };
        let mut refspec = "refs/heads/".to_owned();
        refspec.append(name.as_str());
        refspec.append(":refs/heads/");
        refspec.append(name.as_str());
        self.raw_push(remote, refspec.as_str())
    }

    /// Brings the named remote's tracking refs up to date.
    pub fn fetch(&self, remote: &str) -> (r: GtResult<()>)
        ensures
            r matches Err(e) ==> e is RemoteNotFound || e is GitOperation,
    {
        self.raw_fetch(remote)
    }

    /// Rebases the current branch onto the target revision. The tip
    /// already at the target, or already based on it, is left alone; a tip
    /// the target descends from is fast-forwarded; anything else is handed
    /// back for a sequential replay of the local commits.
    pub fn rebase(&mut self, target: &str) -> (r: GtResult<RebaseOutcome>)
        ensures
            r == Ok::<RebaseOutcome, GtError>(RebaseOutcome::AlreadyUpToDate) ==> final(self)@
                == old(self)@,
            r == Ok::<RebaseOutcome, GtError>(RebaseOutcome::NeedsReplay) ==> final(self)@ == old(self)@,
            r == Ok::<RebaseOutcome, GtError>(RebaseOutcome::FastForwarded) ==> exists|
                t: Seq<char>,
            | spec_ff_post(old(self)@, final(self)@, t),
            r == Ok::<RebaseOutcome, GtError>(RebaseOutcome::FastForwarded) && old(self)@.branches.contains_key(target@) ==> spec_ff_post(
                old(self)@,
                final(self)@,
                old(self)@.branches[target@],
            ),
            r is Err ==> spec_at_most_head_moved(old(self)@, final(self)@),
            r matches Err(e) ==> e is GitOperation,
    {
        let target_tip = self.resolve_commit(target)?;
        let head_tip = self.raw_head_tip()?;
        let base = self.raw_merge_base(head_tip.as_str(), target_tip.as_str())?;
        match plan_rebase(&head_tip, &target_tip, &base) {
            RebasePlan::UpToDate => Ok(RebaseOutcome::AlreadyUpToDate),
            RebasePlan::FastForward => {
                self.raw_fast_forward_head(target_tip.as_str())?;
                Ok(RebaseOutcome::FastForwarded)
            },
            RebasePlan::Replay => Ok(RebaseOutcome::NeedsReplay),
        }
    }

    /// Merges the source revision into the current branch: a tip already
    /// containing the source is left alone, a fast-forward moves the ref,
    /// and otherwise a three-way merge either commits with both parents or
    /// fails with a conflict and commits nothing.
    pub fn merge(&mut self, source: &str) -> (r: GtResult<()>)
        ensures
            old(self)@.branches.contains_key(source@) && old(self)@.branches.contains_key(
                old(self)@.head,
            ) && old(self)@.branches[source@] == old(self)@.branches[old(self)@.head] ==> final(self)@ == old(self)@,
            r is Ok ==> final(self)@.head == old(self)@.head && final(self)@.stashes == old(self)@.stashes && (final(self)@.branches == old(self)@.branches || exists|t: Seq<char>|
                final(self)@.branches == old(self)@.branches.insert(old(self)@.head, t)),
            r matches Err(e) && e is MergeConflict ==> spec_refs_unchanged(
                old(self)@,
                final(self)@,
            ),
            r is Err ==> spec_at_most_head_moved(old(self)@, final(self)@),
            r matches Err(e) ==> e is MergeConflict || e is GitOperation || e is ConfigError
                || e is CurrentBranchNotFound,
    {
        let source_tip = self.resolve_commit(source)?;
        let head_tip = self.raw_head_tip()?;
        let base = self.raw_merge_base(head_tip.as_str(), source_tip.as_str())?;
        match plan_rebase(&head_tip, &source_tip, &base) {
            RebasePlan::UpToDate => Ok(()),
            RebasePlan::FastForward => {
                self.raw_fast_forward_head(source_tip.as_str())?;
                Ok(())
            },
            RebasePlan::Replay => {
                let mut idx = self.raw_merge_trees(
                    base.as_str(),
                    head_tip.as_str(),
                    source_tip.as_str(),
                )?;
                judge_merge_index(raw_index_has_conflicts(&idx))?;
                let (name, email) = self.raw_user_identity()?;
                let current = self.current_branch()?;
                let mut msg = "Merge ".to_owned();
                msg.append(source);
                msg.append(" into ");
                msg.append(current.as_str());
                let _oid = self.raw_commit_index(
                    &mut idx,
                    msg.as_str(),
                    name.as_str(),
                    email.as_str(),
                    head_tip.as_str(),
                    source_tip.as_str(),
                )?;
                Ok(())
            },
        }
    }

    /// Fetches the remote and rebases the current branch onto the remote
    /// branch (the current branch's name by default).
    pub fn pull_rebase(&mut self, remote: &str, branch: Option<&str>) -> (r: GtResult<
        RebaseOutcome,
    >)
        ensures
            r == Ok::<RebaseOutcome, GtError>(RebaseOutcome::AlreadyUpToDate) ==> final(self)@
                == old(self)@,
            r == Ok::<RebaseOutcome, GtError>(RebaseOutcome::NeedsReplay) ==> final(self)@ == old(self)@,
            r == Ok::<RebaseOutcome, GtError>(RebaseOutcome::FastForwarded) ==> exists|
                t: Seq<char>,
            | spec_ff_post(old(self)@, final(self)@, t),
            r is Err ==> spec_at_most_head_moved(old(self)@, final(self)@),
            r matches Err(e) ==> e is GitOperation || e is RemoteNotFound
                || e is CurrentBranchNotFound,
    {
        self.raw_fetch(remote)?;
        let name = match branch {
            Some(b) => b.to_owned(),
            None => self.current_branch()?,
        };
        let mut target = remote.to_owned();
        target.append("/");
        target.append(name.as_str());
        self.rebase(target.as_str())
    }

    /// Fetches the remote and merges the remote branch (the current
    /// branch's name by default) into the current branch.
    pub fn pull_merge(&mut self, remote: &str, branch: Option<&str>) -> (r: GtResult<()>)
        ensures
            r is Ok ==> final(self)@.head == old(self)@.head && final(self)@.stashes == old(self)@.stashes && (final(self)@.branches == old(self)@.branches || exists|t: Seq<char>|
                final(self)@.branches == old(self)@.branches.insert(old(self)@.head, t)),
            r is Err ==> spec_at_most_head_moved(old(self)@, final(self)@),
            r matches Err(e) ==> e is MergeConflict || e is GitOperation || e is ConfigError
                || e is RemoteNotFound || e is CurrentBranchNotFound,
    {
        self.raw_fetch(remote)?;
        let name = match branch {
            Some(b) => b.to_owned(),
            None => self.current_branch()?,
        };
        let mut source = remote.to_owned();
        source.append("/");
        source.append(name.as_str());
        self.merge(source.as_str())
    }

    /// Pulls with the linear-history strategy: fetch, then rebase.
    pub fn pull(&mut self, remote: &str, branch: Option<&str>) -> (r: GtResult<RebaseOutcome>)
        ensures
            r == Ok::<RebaseOutcome, GtError>(RebaseOutcome::AlreadyUpToDate) ==> final(self)@
                == old(self)@,
            r == Ok::<RebaseOutcome, GtError>(RebaseOutcome::NeedsReplay) ==> final(self)@ == old(self)@,
            r == Ok::<RebaseOutcome, GtError>(RebaseOutcome::FastForwarded) ==> exists|
                t: Seq<char>,
            | spec_ff_post(old(self)@, final(self)@, t),
            r is Err ==> spec_at_most_head_moved(old(self)@, final(self)@),
    {
        self.pull_rebase(remote, branch)
    }

    /// Saves the uncommitted state (untracked files included) as the
    /// newest stash entry; the working tree reverts to HEAD's clean state.
    pub fn create_stash(&mut self, message: Option<&str>) -> (r: GtResult<()>)
        ensures
            r is Ok ==> final(self)@ == spec_stash_save(old(self)@),
            r is Err ==> final(self)@ == old(self)@,
            r matches Err(e) ==> e is ConfigError || e is GitOperation,
    {
        let (name, email) = self.raw_user_identity()?;
        match message {
            Some(msg) => self.raw_stash_save(name.as_str(), email.as_str(), msg),
            None => self.raw_stash_save(name.as_str(), email.as_str(), "WIP"),
        }
    }

    /// Applies the stash entry at the index and keeps it on the stack.
    pub fn apply_stash(&mut self, index: usize) -> (r: GtResult<()>)
        ensures
            r is Ok ==> index < old(self)@.stashes.len() && spec_refs_unchanged(
                old(self)@,
                final(self)@,
            ) && final(self)@.stashes == old(self)@.stashes && (spec_clean(old(self)@) && old(self)@.branches.contains_key(old(self)@.head) && old(self)@.branches[old(self)@.head]
                == old(self)@.stashes[index as int].base ==> final(self)@.worktree == old(self)@.stashes[index as int].state),
            r is Err ==> spec_refs_unchanged(old(self)@, final(self)@) && final(self)@.stashes
                == old(self)@.stashes,
            r matches Err(e) ==> e is StashConflict || e is GitOperation,
    {
        self.raw_stash_apply(index)
    }

    /// Applies the stash entry at the index and removes it from the stack
    /// only if the application succeeded without conflicts; on a conflict
    /// the entry is preserved and a conflict failure is returned.
    pub fn pop_stash(&mut self, index: usize) -> (r: GtResult<()>)
        ensures
            r is Ok ==> spec_stash_pop_post(old(self)@, final(self)@, index as int),
            r is Err ==> spec_refs_unchanged(old(self)@, final(self)@) && final(self)@.stashes
                == old(self)@.stashes,
            r matches Err(e) ==> e is StashConflict || e is GitOperation,
    {
        self.raw_stash_pop(index)
    }

    /// The stash entries, newest first, index 0 being the most recent.
    pub fn list_stashes(&mut self) -> (r: GtResult<Vec<Stash>>)
        ensures
            final(self)@ == old(self)@,
            r matches Ok(v) ==> v@.len() == old(self)@.stashes.len(),
            r matches Ok(v) ==> forall|i: int| 0 <= i < v@.len() ==> #[trigger] v@[i].index == i,
            r matches Err(e) ==> e is GitOperation,
    {
        let msgs = self.raw_stash_messages()?;
        let mut stashes: Vec<Stash> = Vec::new();
        let n = msgs.len();
        let mut i: usize = 0;
        while i < n
            invariant
                0 <= i <= n,
                n == msgs@.len(),
                stashes@.len() == i,
                forall|j: int| 0 <= j < i ==> #[trigger] stashes@[j].index == j,
            decreases n - i,
        {
            stashes.push(Stash { index: i, message: msgs[i].clone() });
            i += 1;
        }
        Ok(stashes)
    }

    /// Resets the current branch to the target, keeping the index and the
    /// working tree.
    pub fn reset_soft(&mut self, target: &str) -> (r: GtResult<()>)
        ensures
            r is Err ==> spec_refs_unchanged(old(self)@, final(self)@),
            r matches Err(e) ==> e is GitOperation,
    {
        let tip = self.resolve_commit(target)?;
        self.raw_reset(tip.as_str(), ResetType::Soft)
    }

    /// Resets the current branch to the target, resetting the index and
    /// keeping the working tree.
    pub fn reset_mixed(&mut self, target: &str) -> (r: GtResult<()>)
        ensures
            r is Err ==> spec_refs_unchanged(old(self)@, final(self)@),
            r matches Err(e) ==> e is GitOperation,
    {
        let tip = self.resolve_commit(target)?;
        self.raw_reset(tip.as_str(), ResetType::Mixed)
    }

    /// Resets the current branch to the target, discarding the index and
    /// the tracked files' changes.
    pub fn reset_hard(&mut self, target: &str) -> (r: GtResult<()>)
        ensures
            r is Err ==> spec_refs_unchanged(old(self)@, final(self)@),
            r matches Err(e) ==> e is GitOperation,
    {
        let tip = self.resolve_commit(target)?;
        self.raw_reset(tip.as_str(), ResetType::Hard)
    }
}

/// Relies on the `git2::Status` flag accessors: one library status entry
/// per changed path, each flag read off the reported bitset.
#[verifier::external_body]
fn convert_status_entry(path: &str, st: git2::Status) -> (r: StatusEntry) {
    StatusEntry {
        path: path.to_string(),
        index_new: st.is_index_new(), index_modified: st.is_index_modified(),
        index_deleted: st.is_index_deleted(), index_renamed: st.is_index_renamed(),
        index_typechange: st.is_index_typechange(),
        wt_new: st.is_wt_new(), wt_modified: st.is_wt_modified(),
        wt_deleted: st.is_wt_deleted(), wt_renamed: st.is_wt_renamed(),
        wt_typechange: st.is_wt_typechange(),
    }
}


/// Relies on `git2::Index::add` with an entry rebuilt from HEAD's blob:
/// the path goes back to HEAD's version in the index.
#[verifier::external_body]
fn raw_index_add_head_entry(idx: &mut git2::Index, path: &str, id_hex: &str, mode: u32) -> (r:
    Result<(), GtError>)
    ensures
        r matches Err(e) ==> e is GitOperation,
{
    let m = |e: git2::Error| GtError::GitOperation { message: format!("{}", e) };
    let entry = git2::IndexEntry {
        ctime: git2::IndexTime::new(0, 0), mtime: git2::IndexTime::new(0, 0),
        dev: 0, ino: 0, mode, uid: 0, gid: 0, file_size: 0,
        id: git2::Oid::from_str(id_hex).map_err(m)?,
        flags: 0, flags_extended: 0,
        path: path.as_bytes().to_vec(),
    };
    idx.add(&entry).map_err(m)
}

/// Relies on `git2::Index::remove_path`: the path leaves the index.
#[verifier::external_body]
fn raw_index_remove_path(idx: &mut git2::Index, path: &str) -> (r: Result<(), GtError>)
    ensures
        r matches Err(e) ==> e is GitOperation,
{
    idx.remove_path(std::path::Path::new(path)).map_err(|e| GtError::GitOperation {
        message: format!("{}", e),
    })
}

/// Relies on the `git2::DiffDelta` file accessors: the old and the new
/// path of one delta, converted to plain strings.
#[verifier::external_body]
fn convert_delta(d: &git2::DiffDelta) -> (r: (Option<String>, Option<String>)) {
    (
        d.old_file().path().map(|p| p.to_string_lossy().to_string()),
        d.new_file().path().map(|p| p.to_string_lossy().to_string()),
    )
}


/// The rest of a sequence after a prefix, where the prefix is really
/// there.
pub open spec fn spec_strip_prefix(s: Seq<char>, p: Seq<char>) -> Option<Seq<char>> {
    if s.len() >= p.len() && s.subrange(0, p.len() as int) == p {
        Some(s.subrange(p.len() as int, s.len() as int))
    } else {
        None
    }
}

/// Strips a prefix off a string, where the prefix is really there.
pub fn strip_prefix_str(s: &str, prefix: &str) -> (r: Option<String>)
    ensures
        r matches Some(rest) ==> spec_strip_prefix(s@, prefix@) == Some(rest@),
        r is None ==> spec_strip_prefix(s@, prefix@) is None,
{
    let n = s.unicode_len();
    let p = prefix.unicode_len();
    if n < p {
        return None;
    }
    let mut i: usize = 0;
    while i < p
        invariant
            0 <= i <= p,
            p == prefix@.len(),
            p <= n,
            n == s@.len(),
            forall|j: int| 0 <= j < i ==> s@[j] == prefix@[j],
        decreases p - i,
    {
        if s.get_char(i) != prefix.get_char(i) {
            proof {
                assert(s@.subrange(0, p as int)[i as int] != prefix@[i as int]);
            }
            return None;
        }
        i += 1;
    }
    proof {
        assert(s@.subrange(0, p as int) =~= prefix@);
    }
    let rest = s.substring_char(p, n);
    Some(rest.to_owned())
}

/// Whether a vector already holds a string with the same characters.
fn vec_contains_string(v: &Vec<String>, s: &String) -> (r: bool)
    ensures
        r == exists|i: int| 0 <= i < v@.len() && v@[i]@ == s@,
{
    let n = v.len();
    let mut i: usize = 0;
    while i < n
        invariant
            0 <= i <= n,
            n == v@.len(),
            forall|j: int| 0 <= j < i ==> v@[j]@ != s@,
        decreases n - i,
    {
        if v[i].eq(s) {
            return true;
        }
        i += 1;
    }
    false
}

/// Relies on `git2::Index::add_path`: stages one path in the open index.
#[verifier::external_body]
fn raw_index_add_path(idx: &mut git2::Index, path: &str) -> (r: Result<(), GtError>)
    ensures
        r matches Err(e) ==> e is GitOperation,
{
    idx.add_path(std::path::Path::new(path)).map_err(|e| GtError::GitOperation {
        message: format!("cannot add '{}': {}", path, e),
    })
}

/// Relies on `git2::Index::add_all` over every path: stages all changes in
/// the open index.
#[verifier::external_body]
fn raw_index_add_all(idx: &mut git2::Index) -> (r: Result<(), GtError>)
    ensures
        r matches Err(e) ==> e is GitOperation,
{
    idx.add_all(["*"].iter(), git2::IndexAddOption::DEFAULT, None).map_err(|e| {
        GtError::GitOperation { message: format!("cannot add all files: {}", e) }
    })
}

/// Relies on `git2::Index::has_conflicts`: whether the merged index
/// reports conflicting entries.
#[verifier::external_body]
fn raw_index_has_conflicts(idx: &git2::Index) -> bool {
    idx.has_conflicts()
}

/// A configured remote.
#[derive(Debug, Clone)]
pub struct Remote {
    pub name: String,
    pub url: String,
    pub push_url: Option<String>,
}

/// An immutable commit as the history reports it.
#[derive(Debug, Clone)]
pub struct Commit {
    pub id: String,
    pub message: String,
    pub author: String,
    pub author_email: String,
    pub time: i64,
    pub parents: Vec<String>,
}

/// One saved stash entry; index 0 is the most recent.
#[derive(Debug, Clone)]
pub struct Stash {
    pub index: usize,
    pub message: String,
}

/// The kinds of reset.
#[derive(Debug, Clone, Copy, PartialEq, Eq, Structural)]
pub enum ResetType {
    /// Keep index and working tree.
    Soft,
    /// Reset the index, keep the working tree.
    Mixed,
    /// Reset index and tracked files.
    Hard,
}

/// What saving a stash does to the model: the uncommitted state moves onto
/// the stack, recorded against the current branch tip, and the tree is
/// clean.
pub open spec fn spec_stash_save(m: RepoModel) -> RepoModel {
    RepoModel {
        worktree: 0,
        stashes: seq![StashRecord { state: m.worktree, base: m.branches[m.head] }] + m.stashes,
        ..m
    }
}

/// What popping the entry at an index guarantees of the model: the entry
/// leaves the stack, the refs stay, and onto the clean state of the same
/// branch tip the entry was saved at, the saved state comes back exactly.
/// (At another tip the application may merge into a different state.)
pub open spec fn spec_stash_pop_post(pre: RepoModel, post: RepoModel, i: int) -> bool {
    &&& 0 <= i < pre.stashes.len()
    &&& post.head == pre.head
    &&& post.branches == pre.branches
    &&& post.stashes == pre.stashes.remove(i)
    &&& (spec_clean(pre) && pre.branches.contains_key(pre.head) && pre.branches[pre.head]
        == pre.stashes[i].base ==> post.worktree == pre.stashes[i].state)
}

/// How a rebase or merge is reconciled, judged from the two tips and their
/// merge base.
#[derive(Debug, Clone, Copy, PartialEq, Eq, Structural)]
pub enum RebasePlan {
    /// The tip already equals or already contains the target: nothing to
    /// do.
    UpToDate,
    /// The target strictly descends from the tip: move the ref forward.
    FastForward,
    /// The histories diverged: replay (or three-way merge) is needed.
    Replay,
}

/// The reconciliation decision: nothing to do when the tips are equal or
/// the base is the target (the target is already contained); a
/// fast-forward exactly when the base equals the tip and the tips differ;
/// a replay otherwise.
pub open spec fn spec_plan_rebase(head: Seq<char>, target: Seq<char>, base: Seq<char>) -> RebasePlan {
    if head == target {
        RebasePlan::UpToDate
    } else if base == head {
        RebasePlan::FastForward
    } else if base == target {
        RebasePlan::UpToDate
    } else {
        RebasePlan::Replay
    }
}

/// Judges how to reconcile the current tip with a target from their merge
/// base.
pub fn plan_rebase(head_tip: &String, target_tip: &String, base: &String) -> (r: RebasePlan)
    ensures
        r == spec_plan_rebase(head_tip@, target_tip@, base@),
{
    if head_tip.eq(target_tip) {
        RebasePlan::UpToDate
    } else if base.eq(head_tip) {
        RebasePlan::FastForward
    } else if base.eq(target_tip) {
        RebasePlan::UpToDate
    } else {
        RebasePlan::Replay
    }
}

/// What a completed (non-replay) rebase leaves as the branch tip.
pub open spec fn spec_rebase_tip(head: Seq<char>, target: Seq<char>, base: Seq<char>) -> Seq<
    char,
> {
    match spec_plan_rebase(head, target, base) {
        RebasePlan::UpToDate => head,
        RebasePlan::FastForward => target,
        RebasePlan::Replay => head,
    }
}

/// What a completed rebase reports.
#[derive(Debug, Clone, Copy, PartialEq, Eq, Structural)]
pub enum RebaseOutcome {
    /// The tip already equals or already contains the target.
    AlreadyUpToDate,
    /// The ref was moved forward to the target.
    FastForwarded,
    /// The histories diverged: the caller must replay the local commits
    /// onto the target.
    NeedsReplay,
}

/// Judges a three-way merge's index: conflicting entries stop the merge
/// with the distinct conflict failure — nothing is committed then — and a
/// conflict-free index goes on to be committed.
pub fn judge_merge_index(conflicts: bool) -> (r: GtResult<()>)
    ensures
        r is Ok <==> !conflicts,
        r matches Err(e) ==> e is MergeConflict,
{
    if conflicts {
        Err(GtError::MergeConflict)
    } else {
        Ok(())
    }
}

/// Judges a delegated replay's outcome: a successful replay completes
/// the rebase; a failed one left conflicts behind, to be resolved, staged
/// and continued, or aborted.
pub fn interpret_replay_result(success: bool) -> (r: GtResult<()>)
    ensures
        r is Ok <==> success,
        r matches Err(e) ==> e is RebaseConflict,
{
    if success {
        Ok(())
    } else {
        Err(GtError::RebaseConflict)
    }
}

/// Law: fast-forward is preferred over a replay or three-way merge
/// whenever the merge base of the tip and the target equals the tip
/// itself (and the tips differ).
pub proof fn lemma_fast_forward_preferred(head: Seq<char>, target: Seq<char>, base: Seq<char>)
    requires
        base == head,
        head != target,
    ensures
        spec_plan_rebase(head, target, base) is FastForward,
{
}

/// Law: rebasing is idempotent. A second rebase onto the same target,
/// right after a completed one with no intervening change, leaves the
/// branch tip where the first left it. Where the first call left the tip
/// in place, an unchanged repository reports the same merge base again;
/// where it fast-forwarded, the second call sees equal tips and no base
/// matters.
pub proof fn lemma_rebase_idempotent(
    head: Seq<char>,
    target: Seq<char>,
    base: Seq<char>,
    base2: Seq<char>,
)
    requires
        !(spec_plan_rebase(head, target, base) is Replay),
        spec_rebase_tip(head, target, base) == head ==> base2 == base,
    ensures
        spec_rebase_tip(spec_rebase_tip(head, target, base), target, base2) == spec_rebase_tip(
            head,
            target,
            base,
        ),
{
}

/// Law: for every name that satisfies the naming rule, creating the branch
/// and then checking it out leaves HEAD on that branch, pointing at the
/// chosen tip, with a working tree that was clean still clean.
pub proof fn lemma_create_then_checkout(
    m0: RepoModel,
    m1: RepoModel,
    m2: RepoModel,
    name: Seq<char>,
    tip: Seq<char>,
)
    requires
        spec_valid_branch_name(name),
        spec_clean(m0),
        m1 == spec_create_branch(m0, name, tip),
        spec_checkout_post(m1, m2, name),
    ensures
        m2.head == name,
        m2.branches.contains_key(name),
        m2.branches[name] == tip,
        spec_clean(m2),
        m2.stashes == m0.stashes,
{
}

/// Law: a stash round trip restores the working tree exactly. Saving a
/// stash and popping entry 0 on the otherwise untouched repository — HEAD
/// on a branch, as every workflow runs — brings back the saved
/// uncommitted state, the same stash stack, the same HEAD and the same
/// branches.
pub proof fn lemma_stash_round_trip(m0: RepoModel, m1: RepoModel, m2: RepoModel)
    requires
        m0.branches.contains_key(m0.head),
        m1 == spec_stash_save(m0),
        spec_stash_pop_post(m1, m2, 0),
    ensures
        m2.worktree == m0.worktree,
        m2.stashes == m0.stashes,
        m2.head == m0.head,
        m2.branches == m0.branches,
{
    assert(m1.stashes[0] == StashRecord { state: m0.worktree, base: m0.branches[m0.head] });
    assert(m2.stashes =~= m0.stashes);
}

} // verus!
