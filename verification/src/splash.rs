//! The splash screen: its quote, its error message, opening projects and checking where a
//! new project goes.
use rand::Rng;
use vstd::prelude::*;

use crate::collab::CollabScreen;
use crate::paths::{component_count, component_count_result, join_path, path_join_result, with_extension, with_extension_result};
use crate::recents::{add_recent, recents_after_add, views};

verus! {

/// Calls `rand::rng().random_range(0..n)`. Trusted: the number is below `n`; which number
/// comes out is left to chance.
#[verifier::external_body]
fn random_index(n: usize) -> (r: usize)
    requires
        n > 0,
    ensures
        r < n,
{
    rand::rng().random_range(0..n)
}

/// One of `quotes`, picked at random.
pub fn random_quote(quotes: &Vec<String>) -> (r: String)
    requires
        quotes@.len() > 0,
    ensures
        exists|i: int| 0 <= i < quotes@.len() && r@ == quotes@[i]@,
{
    let i = random_index(quotes.len());
    quotes[i].clone()
}

/// Where a new project would go, and what is wrong with it.
pub enum NewProjectErrorSource {
    Name,
    Location,
}

/// The screen that creates a new project: its name and the folder it goes in, relative to the
/// home folder.
pub struct NewProjectScreen {
    pub project_name: String,
    pub project_location: String,
}

/// What the file system says about a new project's place: whether its folder exists and is a
/// folder, and whether its file is already there.
#[derive(Clone, Copy)]
pub struct NewProjectPathFacts {
    pub location_exists: bool,
    pub location_is_dir: bool,
    pub target_exists: bool,
}

/// The folder a new project goes in: `location` taken from the home folder `home`.
pub open spec fn new_project_folder(home: Seq<char>, location: Seq<char>) -> Seq<char> {
    path_join_result(home, location)
}

/// The file name of a project named `name`: the name with the project extension.
pub open spec fn new_project_file_name(name: Seq<char>) -> Seq<char> {
    with_extension_result(name, "cip"@)
}

/// The file of a new project named `name` in the folder `location` under `home`.
pub open spec fn new_project_target(home: Seq<char>, location: Seq<char>, name: Seq<char>) -> Seq<char> {
    path_join_result(new_project_folder(home, location), new_project_file_name(name))
}

/// The first problem with a new project named `name`, whose file name has `name_components`
/// path components, checked in order: the folder, the name, then a clash with an existing
/// file.
pub open spec fn new_project_problem(name: Seq<char>, name_components: nat, facts: NewProjectPathFacts) -> Option<(Seq<char>, NewProjectErrorSource)> {
    if !facts.location_exists {
        Some(("Project location does not exist."@, NewProjectErrorSource::Location))
    } else if !facts.location_is_dir {
        Some(("Project location must be a folder."@, NewProjectErrorSource::Location))
    } else if name.len() == 0 {
        Some(("Project name cannot be empty."@, NewProjectErrorSource::Name))
    } else if name_components > 1 {
        Some(("Project name cannot be a path."@, NewProjectErrorSource::Name))
    } else if facts.target_exists {
        Some(("Project name taken."@, NewProjectErrorSource::Name))
    } else {
        None
    }
}

/// `r` is the outcome for a project named `name`, whose file name has `name_components`
/// components and whose file would be `target`: the first problem, or the file.
pub open spec fn new_project_outcome(
    r: Result<String, (&'static str, NewProjectErrorSource)>,
    name: Seq<char>,
    name_components: nat,
    target: Seq<char>,
    facts: NewProjectPathFacts,
) -> bool {
    match new_project_problem(name, name_components, facts) {
        None => r matches Ok(path) && path@ == target,
        Some((msg, source)) => r matches Err((m, s)) && m@ == msg && s == source,
    }
}

/// Where a project named `name` goes, given the file `target` it would be and the number of
/// components `name_components` of its file name: the file, or the first problem.
pub fn check_new_project(
    name: &str,
    name_components: usize,
    target: String,
    facts: NewProjectPathFacts,
) -> (r: Result<String, (&'static str, NewProjectErrorSource)>)
    ensures
        new_project_outcome(r, name@, name_components as nat, target@, facts),
{
    if !facts.location_exists {
        return Err(("Project location does not exist.", NewProjectErrorSource::Location));
    }
    if !facts.location_is_dir {
        return Err(("Project location must be a folder.", NewProjectErrorSource::Location));
    }
    if name.is_empty() {
        return Err(("Project name cannot be empty.", NewProjectErrorSource::Name));
    }
    if name_components > 1 {
        return Err(("Project name cannot be a path.", NewProjectErrorSource::Name));
    }
    if facts.target_exists {
        return Err(("Project name taken.", NewProjectErrorSource::Name));
    }
    Ok(target)
}

impl NewProjectScreen {

    /// A screen proposing a project named "Project" in `default_location`, or in no folder
    /// when there is no default.
    pub fn new(default_location: Option<String>) -> (r: Self)
        ensures
            r.project_name@ == "Project"@,
            r.project_location@ == match default_location {
                Some(l) => l@,
                None => Seq::<char>::empty(),
            },
    {
        NewProjectScreen {
            project_name: "Project".to_owned(),
            project_location: match default_location {
                Some(l) => l,
                None => String::new(),
            },
        }
    }

    /// The folder the project goes in, with `home` the home folder (empty when unknown).
    pub fn project_folder(&self, home: &str) -> (r: String)
        ensures
            r@ == new_project_folder(home@, self.project_location@),
    {
        join_path(home, self.project_location.as_str())
    }

    /// The file of the project, with `home` the home folder (empty when unknown).
    pub fn project_file(&self, home: &str) -> (r: String)
        ensures
            r@ == new_project_target(home@, self.project_location@, self.project_name@),
    {
        let folder = self.project_folder(home);
        let file_name = self.project_file_name();
        join_path(folder.as_str(), file_name.as_str())
    }

    /// The file name of the project: its name with the project extension.
    fn project_file_name(&self) -> (r: String)
        ensures
            r@ == new_project_file_name(self.project_name@),
    {
        proof {
            reveal_strlit("cip");
        }
        with_extension(self.project_name.as_str(), "cip")
    }

    /// The file the project would be created as, with `home` the home folder (empty when
    /// unknown) and `facts` what the file system says of the project's folder and file; or the
    /// message and the field at fault.
    pub fn get_new_project_path(&self, home: &str, facts: NewProjectPathFacts) -> (r: Result<String, (&'static str, NewProjectErrorSource)>)
        ensures
            new_project_outcome(
                r,
                self.project_name@,
                component_count_result(new_project_file_name(self.project_name@)),
                new_project_target(home@, self.project_location@, self.project_name@),
                facts,
            ),
    {
        let target = self.project_file(home);
        let file_name = self.project_file_name();
        let n = component_count(file_name.as_str());
        check_new_project(self.project_name.as_str(), n, target, facts)
    }
}

/// The message shown when the project at `path` cannot be opened.
pub open spec fn could_not_open_message(path: Seq<char>) -> Seq<char> {
    "Could not open \""@ + path + "\"."@
}

/// Opens the project at `path`, given the editor that loading it gave (`None` when it could
/// not be loaded): the path is recorded in `recents` and the editor becomes the next state of
/// the app; otherwise the error says which project could not be opened.
pub fn open_project<E>(
    path: String,
    editor: Option<E>,
    recents: &mut Vec<String>,
    next_app_state: &mut Option<E>,
    error: &mut Option<String>,
)
    ensures
        match editor {
            Some(e) => {
                &&& views(final(recents)@) == recents_after_add(views(old(recents)@), path@)
                &&& *final(next_app_state) == Some(e)
                &&& *final(error) == *old(error)
            },
            None => {
                &&& final(recents)@ == old(recents)@
                &&& *final(next_app_state) == *old(next_app_state)
                &&& *final(error) matches Some(msg) && msg@ == could_not_open_message(path@)
            },
        },
{
    match editor {
        Some(e) => {
            add_recent(recents, path);
            *next_app_state = Some(e);
        },
        None => {
            let mut msg = "Could not open \"".to_owned();
            msg.append(path.as_str());
            msg.append("\".");
            *error = Some(msg);
        },
    }
}

/// What the splash screen shows below its banner.
pub enum SplashScreenState<S> {
    Menu,
    NewProject(NewProjectScreen),
    Collab(CollabScreen<S>),
}

/// The splash screen: what it shows, its quote, and the error message in front of it.
pub struct SplashScreen<S> {
    pub state: SplashScreenState<S>,
    pub quote: String,
    pub error: Option<String>,
}

impl<S> SplashScreen<S> {

    /// The menu, with a quote picked at random from `quotes`.
    pub fn new(quotes: &Vec<String>) -> (r: Self)
        requires
            quotes@.len() > 0,
        ensures
            r.state is Menu,
            r.error is None,
            exists|i: int| 0 <= i < quotes@.len() && r.quote@ == quotes@[i]@,
    {
        SplashScreen { state: SplashScreenState::Menu, quote: random_quote(quotes), error: None }
    }

    /// The menu with the error `msg` in front of it, and a quote picked at random.
    pub fn new_with_error(quotes: &Vec<String>, msg: String) -> (r: Self)
        requires
            quotes@.len() > 0,
        ensures
            r.state is Menu,
            r.error == Some(msg),
            exists|i: int| 0 <= i < quotes@.len() && r.quote@ == quotes@[i]@,
    {
        SplashScreen { state: SplashScreenState::Menu, quote: random_quote(quotes), error: Some(msg) }
    }

    /// The end of a frame: the error goes away when its close button was clicked, and the
    /// screen changes to `next_state` when one was chosen.
    pub fn finish_tick(&mut self, close_error: bool, next_state: Option<SplashScreenState<S>>)
        ensures
            final(self).quote == old(self).quote,
            final(self).error == if close_error && old(self).error is Some {
                None
            } else {
                old(self).error
            },
            final(self).state == match next_state {
                Some(s) => s,
                None => old(self).state,
            },
    {
        if close_error && self.error.is_some() {
            self.error = None;
        }
        if let Some(next_state) = next_state {
            self.state = next_state;
        }
    }
}

} // verus!
