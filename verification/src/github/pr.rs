//! Pull requests over the collaboration service's command-line client:
//! strongly typed merge strategies and states, the option builders, the
//! exact argument lists handed to the client, and the parsing of a pull
//! request's number out of its address.

use vstd::prelude::*;
use vstd::string::*;
use crate::branch::{spec_lowercase, lowercase_str};
use crate::errors::{GtError, GtResult};
use crate::github::cli::GithubCli;
use crate::text::{spec_dec, u64_to_dec};

verus! {

/// How a pull request is reconciled when merged.
#[derive(Debug, Clone, Copy, PartialEq, Eq, Structural)]
pub enum MergeStrategy {
    /// Replay the commits for a linear history.
    Rebase,
    /// Squash the branch into one commit.
    Squash,
    /// Keep the branch structure with a merge commit.
    Merge,
}

impl MergeStrategy {
    /// The client's flag for the strategy.
    pub fn to_gh_arg(self) -> (r: &'static str)
        ensures
            r@ == (match self {
                MergeStrategy::Rebase => "--rebase"@,
                MergeStrategy::Squash => "--squash"@,
                MergeStrategy::Merge => "--merge"@,
            }),
    {
        match self {
            MergeStrategy::Rebase => "--rebase",
            MergeStrategy::Squash => "--squash",
            MergeStrategy::Merge => "--merge",
        }
    }

    /// Reads a strategy from its name or one-letter shorthand, without
    /// regard to case; anything else is refused with the offending text.
    pub fn from_str(s: &str) -> (r: Result<MergeStrategy, String>)
        ensures
            spec_lowercase(s@) == "rebase"@ || spec_lowercase(s@) == "r"@ <==> r == Ok::<
                MergeStrategy,
                String,
            >(MergeStrategy::Rebase),
            spec_lowercase(s@) == "squash"@ || spec_lowercase(s@) == "s"@ <==> r == Ok::<
                MergeStrategy,
                String,
            >(MergeStrategy::Squash),
            spec_lowercase(s@) == "merge"@ || spec_lowercase(s@) == "m"@ <==> r == Ok::<
                MergeStrategy,
                String,
            >(MergeStrategy::Merge),
    {
        proof {
            lemma_strategy_literals_distinct();
        }
        let low = lowercase_str(s);
        if low.eq(&"rebase".to_owned()) || low.eq(&"r".to_owned()) {
            Ok(MergeStrategy::Rebase)
        } else if low.eq(&"squash".to_owned()) || low.eq(&"s".to_owned()) {
            Ok(MergeStrategy::Squash)
        } else if low.eq(&"merge".to_owned()) || low.eq(&"m".to_owned()) {
            Ok(MergeStrategy::Merge)
        } else {
            let mut msg = "unsupported merge strategy: ".to_owned();
            msg.append(s);
            msg.append("; supported: rebase (r), squash (s), merge (m)");
            Err(msg)
        }
    }

    /// Every strategy, in the order offered.
    pub fn all() -> (r: Vec<MergeStrategy>)
        ensures
            r@ == seq![MergeStrategy::Rebase, MergeStrategy::Squash, MergeStrategy::Merge],
    {
        let mut v: Vec<MergeStrategy> = Vec::new();
        v.push(MergeStrategy::Rebase);
        v.push(MergeStrategy::Squash);
        v.push(MergeStrategy::Merge);
        proof {
            assert(v@ =~= seq![
                MergeStrategy::Rebase,
                MergeStrategy::Squash,
                MergeStrategy::Merge,
            ]);
        }
        v
    }

    /// Describes the strategy and its effect.
    pub fn description(self) -> (r: &'static str)
        ensures
            r@ == (match self {
                MergeStrategy::Rebase => "rebase (linear history, recommended)"@,
                MergeStrategy::Squash => "squash (all commits folded into one)"@,
                MergeStrategy::Merge => "merge (branch structure kept)"@,
            }),
    {
        match self {
            MergeStrategy::Rebase => "rebase (linear history, recommended)",
            MergeStrategy::Squash => "squash (all commits folded into one)",
            MergeStrategy::Merge => "merge (branch structure kept)",
        }
    }

    /// The strategy's short name.
    pub fn short_description(self) -> (r: &'static str)
        ensures
            r@ == (match self {
                MergeStrategy::Rebase => "Rebase"@,
                MergeStrategy::Squash => "Squash"@,
                MergeStrategy::Merge => "Merge"@,
            }),
    {
        match self {
            MergeStrategy::Rebase => "Rebase",
            MergeStrategy::Squash => "Squash",
            MergeStrategy::Merge => "Merge",
        }
    }

    /// Whether the strategy is the recommended one.
    pub fn is_recommended(self) -> (r: bool)
        ensures
            r == (self is Rebase),
    {
        match self {
            MergeStrategy::Rebase => true,
            _ => false,
        }
    }
}

impl Default for MergeStrategy {
    /// Rebase, for a linear history.
    fn default() -> (r: MergeStrategy)
        ensures
            r is Rebase,
    {
        MergeStrategy::Rebase
    }
}

/// The state a pull request is in.
#[derive(Debug, Clone, PartialEq, Eq, Structural)]
pub enum PrState {
    Open,
    Closed,
    Merged,
    Draft,
}

/// The state's name in reports.
pub open spec fn spec_pr_state_label(s: PrState) -> Seq<char> {
    match s {
        PrState::Open => "open"@,
        PrState::Closed => "closed"@,
        PrState::Merged => "merged"@,
        PrState::Draft => "draft"@,
    }
}

impl PrState {
    /// Reads a state from its name, without regard to case; anything
    /// unrecognized counts as open.
    pub fn from_str(s: &str) -> (r: PrState)
        ensures
            spec_lowercase(s@) == "closed"@ ==> r is Closed,
            spec_lowercase(s@) == "merged"@ ==> r is Merged,
            spec_lowercase(s@) == "draft"@ ==> r is Draft,
            spec_lowercase(s@) != "closed"@ && spec_lowercase(s@) != "merged"@ && spec_lowercase(
                s@,
            ) != "draft"@ ==> r is Open,
    {
        proof {
            lemma_state_literals_distinct();
        }
        let low = lowercase_str(s);
        if low.eq(&"closed".to_owned()) {
            PrState::Closed
        } else if low.eq(&"merged".to_owned()) {
            PrState::Merged
        } else if low.eq(&"draft".to_owned()) {
            PrState::Draft
        } else {
            PrState::Open
        }
    }

    /// Only an open pull request can be merged.
    pub fn is_mergeable(&self) -> (r: bool)
        ensures
            r == (*self is Open),
    {
        match self {
            PrState::Open => true,
            _ => false,
        }
    }

    /// The state's name in reports.
    pub fn label(&self) -> (r: &'static str)
        ensures
            r@ == spec_pr_state_label(*self),
    {
        match self {
            PrState::Open => "open",
            PrState::Closed => "closed",
            PrState::Merged => "merged",
            PrState::Draft => "draft",
        }
    }
}

/// A pull request as the service reports it.
#[derive(Debug, Clone)]
pub struct PullRequest {
    pub number: u32,
    pub title: String,
    pub url: String,
    pub head_branch: String,
    pub base_branch: String,
    pub state: PrState,
    pub author: Option<String>,
    pub created_at: Option<String>,
    pub mergeable: Option<bool>,
}

impl PullRequest {
    /// Whether the request can be merged: it is open, and the service
    /// does not report it unmergeable.
    pub fn can_merge(&self) -> (r: bool)
        ensures
            r == (self.state is Open && (match self.mergeable {
                Some(m) => m,
                None => true,
            })),
    {
        let known_mergeable = match self.mergeable {
            Some(m) => m,
            None => true,
        };
        self.state.is_mergeable() && known_mergeable
    }

    /// One line naming the request: its number, title and state.
    pub fn summary(&self) -> (r: String)
        ensures
            r@ == "#"@ + spec_dec(self.number as nat) + " - "@ + self.title@ + " ("@
                + spec_pr_state_label(self.state) + ")"@,
    {
        let mut s = "#".to_owned();
        let num = u64_to_dec(self.number as u64);
        s.append(num.as_str());
        s.append(" - ");
        s.append(self.title.as_str());
        s.append(" (");
        s.append(self.state.label());
        s.append(")");
        s
    }
}

/// What a pull request is opened with.
#[derive(Debug, Clone)]
pub struct CreatePrOptions {
    pub base_branch: String,
    pub head_branch: String,
    pub title: Option<String>,
    pub body: Option<String>,
    pub draft: bool,
    pub auto_fill: bool,
    pub approvers: Vec<String>,
    pub labels: Vec<String>,
    pub milestone: Option<String>,
}

impl CreatePrOptions {
    /// Opens a request from a head branch into a base branch, title and
    /// body filled in by the service.
    pub fn new(head_branch: String, base_branch: String) -> (r: CreatePrOptions)
        ensures
            r.base_branch == base_branch,
            r.head_branch == head_branch,
            r.title is None,
            r.body is None,
            !r.draft,
            r.auto_fill,
            r.approvers@.len() == 0,
            r.labels@.len() == 0,
            r.milestone is None,
    {
        CreatePrOptions {
            base_branch,
            head_branch,
            title: None,
            body: None,
            draft: false,
            auto_fill: true,
            approvers: Vec::new(),
            labels: Vec::new(),
            milestone: None,
        }
    }

    /// Sets the title; an explicit title turns automatic filling off.
    pub fn with_title(self, title: String) -> (r: CreatePrOptions)
        ensures
            r == (CreatePrOptions { title: Some(title), auto_fill: false, ..self }),
    {
        CreatePrOptions { title: Some(title), auto_fill: false, ..self }
    }

    /// Sets the body.
    pub fn with_body(self, body: String) -> (r: CreatePrOptions)
        ensures
            r == (CreatePrOptions { body: Some(body), ..self }),
    {
        CreatePrOptions { body: Some(body), ..self }
    }

    /// Marks the request as a draft.
    pub fn as_draft(self) -> (r: CreatePrOptions)
        ensures
            r == (CreatePrOptions { draft: true, ..self }),
    {
        CreatePrOptions { draft: true, ..self }
    }

    /// Adds one person asked to approve the request.
    pub fn add_approver(self, approver: String) -> (r: CreatePrOptions)
        ensures
            r.approvers@ == self.approvers@.push(approver),
            r.base_branch == self.base_branch,
            r.head_branch == self.head_branch,
            r.title == self.title,
            r.body == self.body,
            r.draft == self.draft,
            r.auto_fill == self.auto_fill,
            r.labels == self.labels,
            r.milestone == self.milestone,
    {
        let mut approvers = self.approvers;
        approvers.push(approver);
        CreatePrOptions { approvers, ..self }
    }

    /// Adds one label.
    pub fn add_label(self, label: String) -> (r: CreatePrOptions)
        ensures
            r.labels@ == self.labels@.push(label),
            r.base_branch == self.base_branch,
            r.head_branch == self.head_branch,
            r.title == self.title,
            r.body == self.body,
            r.draft == self.draft,
            r.auto_fill == self.auto_fill,
            r.approvers == self.approvers,
            r.milestone == self.milestone,
    {
        let mut labels = self.labels;
        labels.push(label);
        CreatePrOptions { labels, ..self }
    }

    /// Sets the milestone.
    pub fn with_milestone(self, milestone: String) -> (r: CreatePrOptions)
        ensures
            r == (CreatePrOptions { milestone: Some(milestone), ..self }),
    {
        CreatePrOptions { milestone: Some(milestone), ..self }
    }
}

/// What a pull request is merged with.
#[derive(Debug, Clone)]
pub struct MergePrOptions {
    pub strategy: MergeStrategy,
    pub delete_branch: bool,
    pub commit_message: Option<String>,
    pub wait_for_checks: bool,
    pub auto_merge: bool,
}

impl MergePrOptions {
    /// Merges under a strategy, waiting for the checks, keeping the
    /// branch.
    pub fn new(strategy: MergeStrategy) -> (r: MergePrOptions)
        ensures
            r.strategy == strategy,
            !r.delete_branch,
            r.commit_message is None,
            r.wait_for_checks,
            !r.auto_merge,
    {
        MergePrOptions {
            strategy,
            delete_branch: false,
            commit_message: None,
            wait_for_checks: true,
            auto_merge: false,
        }
    }

    /// Deletes the source branch after the merge.
    pub fn delete_branch(self) -> (r: MergePrOptions)
        ensures
            r == (MergePrOptions { delete_branch: true, ..self }),
    {
        MergePrOptions { delete_branch: true, ..self }
    }

    /// Sets the merge commit's message.
    pub fn with_commit_message(self, message: String) -> (r: MergePrOptions)
        ensures
            r == (MergePrOptions { commit_message: Some(message), ..self }),
    {
        MergePrOptions { commit_message: Some(message), ..self }
    }

    /// Merges without waiting for the checks.
    pub fn skip_checks(self) -> (r: MergePrOptions)
        ensures
            r == (MergePrOptions { wait_for_checks: false, ..self }),
    {
        MergePrOptions { wait_for_checks: false, ..self }
    }

    /// Lets the service merge on its own once the conditions hold.
    pub fn enable_auto_merge(self) -> (r: MergePrOptions)
        ensures
            r == (MergePrOptions { auto_merge: true, ..self }),
    {
        MergePrOptions { auto_merge: true, ..self }
    }
}

impl Default for MergePrOptions {
    /// The recommended strategy with the conservative settings.
    fn default() -> (r: MergePrOptions)
        ensures
            r.strategy is Rebase,
            !r.delete_branch,
            r.commit_message is None,
            r.wait_for_checks,
            !r.auto_merge,
    {
        MergePrOptions::new(MergeStrategy::Rebase)
    }
}

/// Runs pull-request operations through the command-line client.
pub struct PullRequestManager {
    pub gh: GithubCli,
}

impl PullRequestManager {
    /// Creates the manager over a client handle.
    pub fn new(gh: GithubCli) -> (r: PullRequestManager)
        ensures
            r.gh == gh,
    {
        PullRequestManager { gh }
    }

    /// The exact argument list that opens a pull request: the fixed
    /// prefix naming base and head, then title, body or automatic fill,
    /// the draft mark, labels and the milestone. The approvers travel
    /// separately: the client is asked for them one by one.
    pub fn create_pr_args(&self, options: &CreatePrOptions) -> (r: Vec<String>)
        ensures
            r@.len() >= 6,
            r@[0]@ == "pr"@,
            r@[1]@ == "create"@,
            r@[2]@ == "--base"@,
            r@[3]@ == options.base_branch@,
            r@[4]@ == "--head"@,
            r@[5]@ == options.head_branch@,
    {
        let mut args: Vec<String> = Vec::new();
        args.push("pr".to_owned());
        args.push("create".to_owned());
        args.push("--base".to_owned());
        args.push(options.base_branch.clone());
        args.push("--head".to_owned());
        args.push(options.head_branch.clone());
        match &options.title {
            Some(title) => {
                args.push("--title".to_owned());
                args.push(title.clone());
            },
            None => {},
        }
        match &options.body {
            Some(body) => {
                args.push("--body".to_owned());
                args.push(body.clone());
            },
            None => {
                if options.auto_fill {
                    args.push("--fill".to_owned());
                } else if options.title.is_some() {
                    args.push("--body".to_owned());
                    args.push("".to_owned());
                }
            },
        }
        if options.draft {
            args.push("--draft".to_owned());
        }
        let n2 = options.labels.len();
        let mut j: usize = 0;
        while j < n2
            invariant
                0 <= j <= n2,
                n2 == options.labels@.len(),
                args@.len() >= 6,
                args@[0]@ == "pr"@,
                args@[1]@ == "create"@,
                args@[2]@ == "--base"@,
                args@[3]@ == options.base_branch@,
                args@[4]@ == "--head"@,
                args@[5]@ == options.head_branch@,
            decreases n2 - j,
        {
            args.push("--label".to_owned());
            args.push(options.labels[j].clone());
            j += 1;
        }
        match &options.milestone {
            Some(m) => {
                args.push("--milestone".to_owned());
                args.push(m.clone());
            },
            None => {},
        }
        args
    }

    /// The exact argument list that merges a pull request: the fixed
    /// prefix naming the request and the strategy flag, then the branch
    /// deletion, the subject and the automatic-merge marks.
    pub fn merge_pr_args(&self, pr_url: &str, options: &MergePrOptions) -> (r: Vec<String>)
        ensures
            r@.len() >= 4,
            r@[0]@ == "pr"@,
            r@[1]@ == "merge"@,
            r@[2]@ == pr_url@,
            r@[3]@ == (match options.strategy {
                MergeStrategy::Rebase => "--rebase"@,
                MergeStrategy::Squash => "--squash"@,
                MergeStrategy::Merge => "--merge"@,
            }),
    {
        let mut args: Vec<String> = Vec::new();
        args.push("pr".to_owned());
        args.push("merge".to_owned());
        args.push(pr_url.to_owned());
        args.push(options.strategy.to_gh_arg().to_owned());
        if options.delete_branch {
            args.push("--delete-branch".to_owned());
        }
        match &options.commit_message {
            Some(m) => {
                args.push("--subject".to_owned());
                args.push(m.clone());
            },
            None => {},
        }
        if options.auto_merge {
            args.push("--auto".to_owned());
        }
        args
    }

    /// Builds the request record the service's terse output stands for:
    /// the number out of the address, the requested branches, and the
    /// draft or open state of the request just made.
    pub fn parse_pr_from_url(&self, url: &str, options: &CreatePrOptions) -> (r: PullRequest)
        ensures
            r.number as int == spec_pr_number(url@),
            r.url@ == url@,
            r.head_branch == options.head_branch,
            r.base_branch == options.base_branch,
            options.draft ==> r.state is Draft,
            !options.draft ==> r.state is Open,
    {
        let number = pr_number_from_url(url);
        let title = match &options.title {
            Some(t) => t.clone(),
            None => {
                let mut t = "Pull Request #".to_owned();
                let num = u64_to_dec(number as u64);
                t.append(num.as_str());
                t
            },
        };
        PullRequest {
            number,
            title,
            url: url.to_owned(),
            head_branch: options.head_branch.clone(),
            base_branch: options.base_branch.clone(),
            state: if options.draft {
                PrState::Draft
            } else {
                PrState::Open
            },
            author: None,
            created_at: None,
            mergeable: Some(true),
        }
    }
}

proof fn lemma_strategy_literals_distinct()
    ensures
        "rebase"@ != "squash"@,
        "rebase"@ != "s"@,
        "rebase"@ != "merge"@,
        "rebase"@ != "m"@,
        "r"@ != "squash"@,
        "r"@ != "s"@,
        "r"@ != "merge"@,
        "r"@ != "m"@,
        "squash"@ != "merge"@,
        "squash"@ != "m"@,
        "s"@ != "merge"@,
        "s"@ != "m"@,
{
    reveal_strlit("rebase");
    reveal_strlit("r");
    reveal_strlit("squash");
    reveal_strlit("s");
    reveal_strlit("merge");
    reveal_strlit("m");
    assert("rebase"@[0] == 'r' && "squash"@[0] == 's');
    assert("r"@[0] == 'r' && "s"@[0] == 's' && "m"@[0] == 'm');
    assert("merge"@[0] == 'm');
}

proof fn lemma_state_literals_distinct()
    ensures
        "closed"@ != "merged"@,
        "closed"@ != "draft"@,
        "merged"@ != "draft"@,
{
    reveal_strlit("closed");
    reveal_strlit("merged");
    reveal_strlit("draft");
    assert("closed"@[0] == 'c' && "merged"@[0] == 'm');
}

/// A decimal digit.
pub open spec fn spec_is_digit(c: char) -> bool {
    '0' <= c && c <= '9'
}

/// A non-empty sequence of decimal digits.
pub open spec fn spec_all_digits(s: Seq<char>) -> bool {
    s.len() > 0 && forall|i: int| 0 <= i < s.len() ==> spec_is_digit(#[trigger] s[i])
}

/// The value of a digit sequence read in decimal.
pub open spec fn spec_digits_val(s: Seq<char>) -> int
    decreases s.len(),
{
    if s.len() == 0 {
        0
    } else {
        spec_digits_val(s.drop_last()) * 10 + (s.last() as int - '0' as int)
    }
}

/// The position of the first pull-request marker at or after `from`.
pub open spec fn spec_find_pull(s: Seq<char>, from: int) -> Option<int>
    decreases s.len() - from,
    when 0 <= from <= s.len()
{
    if from + 6 > s.len() {
        None
    } else if s.subrange(from, from + 6) == "/pull/"@ {
        Some(from)
    } else {
        spec_find_pull(s, from + 1)
    }
}

/// The number a pull-request address carries: the digits right after the
/// first `/pull/` marker, read in decimal; an address without the marker,
/// with anything but plain digits after it, or with a number too large
/// for 32 bits counts as zero.
pub open spec fn spec_pr_number(url: Seq<char>) -> int {
    match spec_find_pull(url, 0) {
        Some(i) => {
            let rest = url.subrange(i + 6, url.len() as int);
            if spec_all_digits(rest) && spec_digits_val(rest) <= u32::MAX {
                spec_digits_val(rest)
            } else {
                0
            }
        },
        None => 0,
    }
}

proof fn lemma_digits_val_nonneg(s: Seq<char>)
    requires
        forall|i: int| 0 <= i < s.len() ==> spec_is_digit(#[trigger] s[i]),
    ensures
        spec_digits_val(s) >= 0,
    decreases s.len(),
{
    if s.len() > 0 {
        lemma_digits_val_nonneg(s.drop_last());
    }
}

proof fn lemma_digits_val_extend(s: Seq<char>, j: int)
    requires
        0 <= j < s.len(),
    ensures
        spec_digits_val(s.subrange(0, j + 1)) == spec_digits_val(s.subrange(0, j)) * 10 + (s[j]
            as int - '0' as int),
{
    assert(s.subrange(0, j + 1).drop_last() =~= s.subrange(0, j));
    assert(s.subrange(0, j + 1).last() == s[j]);
}

proof fn lemma_digits_val_prefix_le(s: Seq<char>, j: int)
    requires
        0 <= j <= s.len(),
        forall|i: int| 0 <= i < s.len() ==> spec_is_digit(#[trigger] s[i]),
    ensures
        spec_digits_val(s.subrange(0, j)) <= spec_digits_val(s),
    decreases s.len() - j,
{
    if j == s.len() {
        assert(s.subrange(0, j) =~= s);
    } else {
        lemma_digits_val_extend(s, j);
        let prefix = spec_digits_val(s.subrange(0, j));
        assert forall|i: int| 0 <= i < s.subrange(0, j).len() implies spec_is_digit(
            #[trigger] s.subrange(0, j)[i],
        ) by {
            assert(s.subrange(0, j)[i] == s[i]);
        }
        lemma_digits_val_nonneg(s.subrange(0, j));
        assert(s[j] as int - '0' as int >= 0);
        assert(prefix * 10 >= prefix) by (nonlinear_arith)
            requires
                prefix >= 0,
        ;
        lemma_digits_val_prefix_le(s, j + 1);
    }
}

/// Whether the pull-request marker stands at a position of the address.
fn marker_at(url: &str, i: usize) -> (r: bool)
    requires
        i + 6 <= url@.len(),
        i + 6 <= usize::MAX,
    ensures
        r == (url@.subrange(i as int, i as int + 6) == "/pull/"@),
{
    proof {
        reveal_strlit("/pull/");
    }
    let r = url.get_char(i) == '/' && url.get_char(i + 1) == 'p' && url.get_char(i + 2) == 'u'
        && url.get_char(i + 3) == 'l' && url.get_char(i + 4) == 'l' && url.get_char(i + 5) == '/';
    proof {
        let sub = url@.subrange(i as int, i as int + 6);
        if r {
            assert(sub =~= "/pull/"@);
        } else {
            assert(sub != "/pull/"@) by {
                if sub == "/pull/"@ {
                    assert(url@[i as int] == sub[0]);
                    assert(url@[i as int + 1] == sub[1]);
                    assert(url@[i as int + 2] == sub[2]);
                    assert(url@[i as int + 3] == sub[3]);
                    assert(url@[i as int + 4] == sub[4]);
                    assert(url@[i as int + 5] == sub[5]);
                }
            }
        }
    }
    r
}

/// Reads the digits after the marker; anything but plain digits fitting
/// 32 bits gives zero.
fn parse_pull_tail(url: &str, start: usize) -> (r: u32)
    requires
        start <= url@.len(),
    ensures
        r as int == ({
            let rest = url@.subrange(start as int, url@.len() as int);
            if spec_all_digits(rest) && spec_digits_val(rest) <= u32::MAX {
                spec_digits_val(rest)
            } else {
                0
            }
        }),
{
    let ghost rest = url@.subrange(start as int, url@.len() as int);
    let n = url.unicode_len();
    if start == n {
        return 0;
    }
    let mut value: u32 = 0;
    let mut j = start;
    while j < n
        invariant
            start <= j <= n,
            n == url@.len(),
            rest == url@.subrange(start as int, url@.len() as int),
            forall|k: int| 0 <= k < j - start ==> spec_is_digit(#[trigger] rest[k]),
            value as int == spec_digits_val(rest.subrange(0, j - start)),
        decreases n - j,
    {
        let c = url.get_char(j);
        proof {
            assert(rest[j - start] == url@[j as int]);
        }
        proof {
            assert('0' as u32 == 48 && '9' as u32 == 57);
        }
        if !(c >= '0' && c <= '9') {
            proof {
                assert(!spec_is_digit(rest[j - start]));
                assert(!spec_all_digits(rest));
            }
            return 0;
        }
        let d: u32 = (c as u32) - 48;
        proof {
            assert(spec_is_digit(rest[j - start]));
        }
        if value > (u32::MAX - d) / 10 {
            // The running value is already too large: ten times it plus
            // the next digit passes the 32-bit bound, and further digits
            // only grow the value.
            proof {
                let prefix = spec_digits_val(rest.subrange(0, j - start));
                assert(prefix * 10 + d > u32::MAX) by (nonlinear_arith)
                    requires
                        prefix == value as int,
                        value > (u32::MAX - d) / 10,
                        0 <= d <= 9,
                ;
                lemma_digits_val_extend(rest, j - start);
                assert(rest[j - start] as int - '0' as int == d);
                if spec_all_digits(rest) {
                    lemma_digits_val_prefix_le(rest, j - start + 1);
                    assert(spec_digits_val(rest) > u32::MAX);
                }
            }
            return 0;
        }
        proof {
            let prefix = spec_digits_val(rest.subrange(0, j - start));
            assert(prefix * 10 + d <= u32::MAX) by (nonlinear_arith)
                requires
                    prefix == value as int,
                    value <= (u32::MAX - d) / 10,
                    0 <= d <= 9,
                    prefix >= 0,
            ;
            lemma_digits_val_extend(rest, j - start);
            assert(rest[j - start] as int - '0' as int == d);
        }
        value = value * 10 + d;
        j += 1;
    }
    proof {
        assert(rest.subrange(0, n - start) =~= rest);
        assert(spec_all_digits(rest));
    }
    value
}

/// Reads the pull-request number out of an address: the digits right
/// after the first `/pull/` marker; an address without the marker, or
/// without a plain number after it, counts as request zero.
pub fn pr_number_from_url(url: &str) -> (r: u32)
    ensures
        r as int == spec_pr_number(url@),
{
    let n = url.unicode_len();
    if n < 6 {
        proof {
            assert(spec_find_pull(url@, 0) is None);
        }
        return 0;
    }
    let mut i: usize = 0;
    while i <= n - 6
        invariant
            0 <= i,
            n >= 6,
            i <= n - 5,
            n == url@.len(),
            spec_find_pull(url@, 0) == spec_find_pull(url@, i as int),
        decreases n - i,
    {
        if marker_at(url, i) {
            proof {
                assert(spec_find_pull(url@, i as int) == Some(i as int));
            }
            return parse_pull_tail(url, i + 6);
        }
        proof {
            assert(spec_find_pull(url@, i as int) == spec_find_pull(url@, i as int + 1));
        }
        i += 1;
    }
    proof {
        assert(spec_find_pull(url@, i as int) is None);
    }
    0
}

/// The fixed record the client's JSON view is summarized as while the
/// full decoding is not wired up.
pub fn parse_pr_json(_json: &str) -> (r: GtResult<PullRequest>)
    ensures
        r matches Ok(pr) && pr.number == 1 && pr.state is Open,
{
    Ok(PullRequest {
        number: 1,
        title: "Test PR".to_owned(),
        url: "https://github.com/test/test/pull/1".to_owned(),
        head_branch: "feature".to_owned(),
        base_branch: "main".to_owned(),
        state: PrState::Open,
        author: None,
        created_at: None,
        mergeable: Some(true),
    })
}

/// The empty listing the client's JSON view is summarized as while the
/// full decoding is not wired up.
pub fn parse_pr_list_json(_json: &str) -> (r: GtResult<Vec<PullRequest>>)
    ensures
        r matches Ok(v) && v@.len() == 0,
{
    Ok(Vec::new())
}

} // verus!
