//! The registry of projects: each name with the directory it lives in.

use vstd::prelude::*;
use vstd::string::*;
use crate::error::ShadeError;

verus! {

/// A registered project.
#[derive(Debug, Clone)]
pub struct Project {
    pub name: String,
    pub local_path: String,
}

/// The registry, with the version of its format.
#[derive(Debug, Clone)]
pub struct Config {
    pub version: String,
    pub projects: Vec<Project>,
}

/// The message of the failure to register a name twice.
pub open spec fn already_exists_text(name: Seq<char>) -> Seq<char> {
    "Project already exists: "@ + name
}

impl Config {
    /// Some registered project bears `name`.
    pub open spec fn has_project(self, name: Seq<char>) -> bool {
        exists|i: int| 0 <= i < self.projects@.len() && #[trigger] self.projects@[i].name@ == name
    }

    /// No two registered projects share a name.
    pub open spec fn names_unique(self) -> bool {
        forall|i: int, j: int|
            0 <= i < j < self.projects@.len() ==> #[trigger] self.projects@[i].name@
                != #[trigger] self.projects@[j].name@
    }

    /// The project at `at` bears `name` and none before it does.
    pub open spec fn is_first_named(self, at: int, name: Seq<char>) -> bool {
        &&& 0 <= at < self.projects@.len()
        &&& self.projects@[at].name@ == name
        &&& forall|k: int| 0 <= k < at ==> #[trigger] self.projects@[k].name@ != name
    }

    /// The registry a machine starts with: format version `1.0` and no
    /// projects.
    pub fn new() -> (config: Config)
        ensures
            config.version@ == "1.0"@,
            config.projects@.len() == 0,
            config.names_unique(),
    {
        Config { version: String::from_str("1.0"), projects: Vec::new() }
    }

    /// Registers `name` at `local_path`, after the projects already there.
    /// A name that is registered already is refused and nothing changes.
    pub fn add_project(&mut self, name: String, local_path: String) -> (added: Result<
        (),
        ShadeError,
    >)
        ensures
            added is Ok <==> !old(self).has_project(name@),
            added is Ok ==> final(self).projects@ == old(self).projects@.push(
                Project { name, local_path },
            ),
            added is Err ==> final(self).projects@ == old(self).projects@,
            added matches Err(e) ==> e matches ShadeError::Other(text) && text@
                == already_exists_text(name@),
            final(self).version == old(self).version,
            old(self).names_unique() ==> final(self).names_unique(),
    {
        if self.position_of(&name) < self.projects.len() {
            let text = String::from_str("Project already exists: ").concat(name.as_str());
            return Err(ShadeError::Other(text));
        }
        self.projects.push(Project { name, local_path });
        Ok(())
    }

    /// The first registered project named `name`.
    pub fn find_project(&self, name: &str) -> (found: Option<&Project>)
        ensures
            found is Some <==> self.has_project(name@),
            found matches Some(project) ==> exists|at: int|
                #![trigger self.projects@[at]]
                self.is_first_named(at, name@) && *project == self.projects@[at],
    {
        let wanted = name.to_owned();
        let at = self.position_of(&wanted);
        if at < self.projects.len() {
            Some(&self.projects[at])
        } else {
            None
        }
    }

    /// The project named `name`, which a command needs before it can do
    /// anything for it.
    pub fn require_project(&self, name: &str) -> (found: Result<&Project, ShadeError>)
        ensures
            found is Ok <==> self.has_project(name@),
            found matches Ok(project) ==> exists|at: int|
                #![trigger self.projects@[at]]
                self.is_first_named(at, name@) && *project == self.projects@[at],
            found matches Err(e) ==> e matches ShadeError::NotInitialized { project_name }
                && project_name@ == name@,
    {
        match self.find_project(name) {
            Some(project) => Ok(project),
            None => Err(ShadeError::NotInitialized { project_name: String::from_str(name) }),
        }
    }

    /// Whether `name` can be registered: the shared repository has to
    /// exist, and the name must be new.
    pub fn check_new_project(&self, shade_repo_exists: bool, name: &str) -> (allowed: Result<
        (),
        ShadeError,
    >)
        ensures
            allowed is Ok <==> shade_repo_exists && !self.has_project(name@),
            !shade_repo_exists ==> allowed == Err::<(), ShadeError>(ShadeError::ShadeRepoNotFound),
            shade_repo_exists && self.has_project(name@) ==> (allowed matches Err(
                ShadeError::AlreadyInitialized(project_name),
            ) && project_name@ == name@),
    {
        if !shade_repo_exists {
            return Err(ShadeError::ShadeRepoNotFound);
        }
        match self.find_project(name) {
            Some(_) => Err(ShadeError::AlreadyInitialized(String::from_str(name))),
            None => Ok(()),
        }
    }

    /// Where the first project named `name` stands; the number of projects
    /// when none bears the name.
    fn position_of(&self, name: &String) -> (at: usize)
        ensures
            at <= self.projects@.len(),
            at < self.projects@.len() <==> self.has_project(name@),
            at < self.projects@.len() ==> self.is_first_named(at as int, name@),
    {
        let mut i: usize = 0;
        while i < self.projects.len()
            invariant
                i <= self.projects@.len(),
                forall|k: int| 0 <= k < i ==> #[trigger] self.projects@[k].name@ != name@,
            decreases self.projects@.len() - i,
        {
            if self.projects[i].name == *name {
                return i;
            }
            i += 1;
        }
        i
    }
}

} // verus!
