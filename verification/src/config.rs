//! The synchronization configuration: which upstream organization and
//! repository to mirror, and which subtree (or filter expression) of it this
//! repository corresponds to.

use vstd::prelude::*;

verus! {

use vstd::pervasive::unreached;

/// Execute an operation after a pull, and if something changes in the local git
/// state, perform a commit.
pub struct PostPullOperation {
    /// Execute a command with these arguments.
    /// At least one argument has to be present.
    pub cmd: Vec<String>,
    /// If the git state has changed after `cmd`, add all changes to the index
    /// (`git add -u`) and create a commit with the following commit message.
    pub commit_message: String,
}

/// Mathematical image of a `PostPullOperation`.
#[verifier::ext_equal]
pub struct PostPullOperationV {
    pub cmd: Seq<Seq<char>>,
    pub commit_message: Seq<char>,
}

impl View for PostPullOperation {
    type V = PostPullOperationV;

    open spec fn view(&self) -> PostPullOperationV {
        PostPullOperationV { cmd: self.cmd.deep_view(), commit_message: self.commit_message@ }
    }
}

pub struct JoshConfig {
    pub org: String,
    pub repo: String,
    /// Relative path where the subtree is located in the upstream repository.
    /// For example `src/doc/rustc-dev-guide`.
    pub path: Option<String>,
    /// Optional filter specification for Josh.
    /// It cannot be used together with `path`.
    pub filter: Option<String>,
    /// Operation(s) that should be performed after a pull.
    /// Can be used to post-process the state of the repository after a pull
    /// happens.
    pub post_pull: Vec<PostPullOperation>,
}

/// Mathematical image of a `JoshConfig`.
#[verifier::ext_equal]
pub struct JoshConfigV {
    pub org: Seq<char>,
    pub repo: Seq<char>,
    pub path: Option<Seq<char>>,
    pub filter: Option<Seq<char>>,
    pub post_pull: Seq<PostPullOperationV>,
}

impl View for JoshConfig {
    type V = JoshConfigV;

    open spec fn view(&self) -> JoshConfigV {
        JoshConfigV {
            org: self.org@,
            repo: self.repo@,
            path: self.path.deep_view(),
            filter: self.filter.deep_view(),
            post_pull: self.post_pull@.map_values(|op: PostPullOperation| op@),
        }
    }
}

impl JoshConfigV {
    /// Exactly one of `path` and `filter` is present, and every post-pull
    /// operation has a command to run.
    pub open spec fn wf(self) -> bool {
        &&& (self.path is Some) != (self.filter is Some)
        &&& forall|i: int|
            0 <= i < self.post_pull.len() ==> (#[trigger] self.post_pull[i]).cmd.len() > 0
    }

    /// `org/repo`.
    pub open spec fn full_name(self) -> Seq<char> {
        self.org + "/"@ + self.repo
    }

    /// The Josh filter expression selecting this repository's subtree.
    pub open spec fn filter_expr(self) -> Seq<char> {
        if self.path is Some {
            ":/"@ + self.path->Some_0
        } else {
            self.filter->Some_0
        }
    }
}

fn clone_string_vec(v: &Vec<String>) -> (r: Vec<String>)
    ensures
        r.deep_view() == v.deep_view(),
{
    let n = v.len();
    let mut r: Vec<String> = Vec::new();
    let mut i: usize = 0;
    while i < n
        invariant
            0 <= i <= n,
            n == v.len(),
            r.len() == i,
            forall|j: int| 0 <= j < i ==> r@[j]@ == #[trigger] v@[j]@,
        decreases n - i,
    {
        r.push(v[i].clone());
        i = i + 1;
    }
    proof {
        assert forall|j: int| 0 <= j < n implies r.deep_view()[j] == #[trigger] v.deep_view()[j] by {
            assert(r@[j]@ == v@[j]@);
        }
        assert(r.deep_view() =~= v.deep_view());
    }
    r
}

fn clone_string_opt(v: &Option<String>) -> (r: Option<String>)
    ensures
        r.deep_view() == v.deep_view(),
{
    match v {
        Some(s) => Some(s.clone()),
        None => None,
    }
}

impl Clone for PostPullOperation {
    fn clone(&self) -> (r: Self)
        ensures
            r@ == self@,
    {
        let r = PostPullOperation {
            cmd: clone_string_vec(&self.cmd),
            commit_message: self.commit_message.clone(),
        };
        proof {
            assert(r@ =~= self@);
        }
        r
    }
}

impl Clone for JoshConfig {
    fn clone(&self) -> (r: Self)
        ensures
            r@ == self@,
    {
        let n = self.post_pull.len();
        let mut ops: Vec<PostPullOperation> = Vec::new();
        let mut i: usize = 0;
        while i < n
            invariant
                0 <= i <= n,
                n == self.post_pull.len(),
                ops.len() == i,
                forall|j: int| 0 <= j < i ==> ops@[j]@ == #[trigger] self.post_pull@[j]@,
            decreases n - i,
        {
            ops.push(self.post_pull[i].clone());
            i = i + 1;
        }
        let r = JoshConfig {
            org: self.org.clone(),
            repo: self.repo.clone(),
            path: clone_string_opt(&self.path),
            filter: clone_string_opt(&self.filter),
            post_pull: ops,
        };
        proof {
            assert(r@.post_pull =~= self@.post_pull);
            assert(r@ =~= self@);
        }
        r
    }
}

/// The ways a configuration can be contradictory.
#[derive(Clone, Copy, Debug, PartialEq, Eq, Structural)]
pub enum ConfigError {
    /// `path` and `filter` are mutually exclusive.
    BothPathAndFilter,
    /// One of `path` and `filter` must be given.
    MissingPathAndFilter,
    /// A post-pull operation was configured without a command.
    EmptyPostPullCommand,
}

impl ConfigError {
    pub fn message(&self) -> (r: String)
        ensures
            *self == ConfigError::BothPathAndFilter ==> r@ == "Cannot specify both `path` and `filter`"@,
            *self == ConfigError::MissingPathAndFilter ==> r@ == "Must specify one of `path` and `filter`"@,
            *self == ConfigError::EmptyPostPullCommand ==> r@ == "A post-pull operation must have a non-empty command"@,
    {
        match self {
            ConfigError::BothPathAndFilter => "Cannot specify both `path` and `filter`".to_owned(),
            ConfigError::MissingPathAndFilter => "Must specify one of `path` and `filter`".to_owned(),
            ConfigError::EmptyPostPullCommand => "A post-pull operation must have a non-empty command".to_owned(),
        }
    }
}

/// The organization used when the configuration names none.
pub fn default_org() -> (r: String)
    ensures
        r@ == "rust-lang"@,
{
    "rust-lang".to_owned()
}

impl JoshConfig {
    pub fn full_repo_name(&self) -> (r: String)
        ensures
            r@ == self@.full_name(),
    {
        let mut s = self.org.clone();
        s.append("/");
        s.append(self.repo.as_str());
        s
    }

    pub fn construct_josh_filter(&self) -> (r: String)
        requires
            self@.wf(),
        ensures
            r@ == self@.filter_expr(),
    {
        match (&self.path, &self.filter) {
            (Some(path), None) => {
                let mut s = String::from_str(":/");
                s.append(path.as_str());
                s
            },
            (None, Some(filter)) => filter.clone(),
            _ => unreached(),
        }
    }

    /// Checks the configuration invariant: succeeds exactly when the
    /// configuration is well formed, and names what is wrong otherwise.
    pub fn validate(&self) -> (r: Result<(), ConfigError>)
        ensures
            r is Ok <==> self@.wf(),
            r == Result::<(), ConfigError>::Err(ConfigError::BothPathAndFilter) <==> (self@.path is Some && self@.filter is Some),
            r == Result::<(), ConfigError>::Err(ConfigError::MissingPathAndFilter) <==> (self@.path is None && self@.filter is None),
            r == Result::<(), ConfigError>::Err(ConfigError::EmptyPostPullCommand) <==> ((self@.path is Some) != (self@.filter is Some)
                && exists|i: int| 0 <= i < self@.post_pull.len() && (#[trigger] self@.post_pull[i]).cmd.len() == 0),
    {
        if self.path.is_some() && self.filter.is_some() {
            return Err(ConfigError::BothPathAndFilter);
        }
        if self.path.is_none() && self.filter.is_none() {
            return Err(ConfigError::MissingPathAndFilter);
        }
        let n = self.post_pull.len();
        let mut i: usize = 0;
        while i < n
            invariant
                0 <= i <= n,
                n == self@.post_pull.len(),
                (self@.path is Some) != (self@.filter is Some),
                forall|j: int| 0 <= j < i ==> (#[trigger] self@.post_pull[j]).cmd.len() > 0,
            decreases n - i,
        {
            if self.post_pull[i].cmd.len() == 0 {
                assert(self@.post_pull[i as int].cmd.len() == 0);
                return Err(ConfigError::EmptyPostPullCommand);
            }
            assert(self@.post_pull[i as int].cmd.len() > 0);
            i = i + 1;
        }
        Ok(())
    }
}

} // verus!
