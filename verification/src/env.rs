//! Environments: named sets of variables, one YAML file each, one of them active.

use crate::formats;
use crate::formats::{variables_of_yaml, yaml_of_variables};
use crate::paths;
use crate::paths::{extension, file_stem, join_path};
use crate::rows;
use crate::rows::set_entry;
use crate::text;
use crate::text::{concat2, concat3, replace_all, same_text, trim};
use vstd::prelude::*;
use vstd::string::*;

verus! {

/// The name of the configuration directory's owner.
pub const APP_NAME: &'static str = "rnm";

/// A text that is to be written to a file.
pub struct FileWrite {
    pub path: String,
    pub text: String,
}

/// The paths and texts of a list of writes.
pub open spec fn write_texts(writes: Seq<FileWrite>) -> Seq<(Seq<char>, Seq<char>)> {
    writes.map_values(|w: FileWrite| (w.path@, w.text@))
}

/// Why variables could not be read or written.
pub enum EnvError {
    /// The file of the environment is no YAML mapping of strings.
    Parse,
    /// The variables have no YAML text, for the reason given.
    Serialize(String),
}

/// The model of an [`EnvError`].
pub ghost enum EnvFault {
    Parse,
    Serialize(Seq<char>),
}

impl View for EnvError {
    type V = EnvFault;

    open spec fn view(&self) -> EnvFault {
        match self {
            EnvError::Parse => EnvFault::Parse,
            EnvError::Serialize(e) => EnvFault::Serialize(e@),
        }
    }
}

impl EnvError {
    /// The message for the user.
    pub fn message(&self) -> (s: String)
        ensures
            match self@ {
                EnvFault::Parse => s@ == "Failed to parse environment YAML file"@,
                EnvFault::Serialize(e) => s@ == e,
            },
    {
        match self {
            EnvError::Parse => "Failed to parse environment YAML file".to_string(),
            EnvError::Serialize(e) => e.clone(),
        }
    }
}

/// The name that the file of the active environment holds; a blank one counts for none.
pub open spec fn active_name(content: Option<Seq<char>>) -> Option<Seq<char>> {
    match content {
        Some(t) => if text::trimmed(t).len() == 0 {
            None
        } else {
            Some(text::trimmed(t))
        },
        None => None,
    }
}

/// The file that holds the name of the active environment.
pub open spec fn active_file(config_dir: Seq<char>) -> Seq<char> {
    paths::under(config_dir, "active_env"@)
}

/// The file that holds the variables of an environment.
pub open spec fn env_file(config_dir: Seq<char>, name: Seq<char>) -> Seq<char> {
    paths::under(paths::under(config_dir, "env"@), name + ".yaml"@)
}

/// The variables in the file of an environment; none where there is no file.
pub open spec fn loaded(content: Option<Seq<char>>) -> Result<Seq<rows::Entry>, EnvFault> {
    match content {
        None => Ok(Seq::empty()),
        Some(t) => match formats::yaml_variables(t) {
            Ok(vars) => Ok(vars),
            Err(_) => Err(EnvFault::Parse),
        },
    }
}

/// The variables that a result of loading holds.
pub open spec fn loaded_view(r: Result<Vec<(String, String)>, EnvError>) -> Result<
    Seq<rows::Entry>,
    EnvFault,
> {
    match r {
        Ok(vars) => Ok(rows::entries(vars@)),
        Err(e) => Err(e@),
    }
}

/// What is written to make an environment the active one: its empty file, where it has none yet,
/// and its name.
pub open spec fn activation(config_dir: Seq<char>, name: Seq<char>, exists_already: bool) -> Result<
    Seq<(Seq<char>, Seq<char>)>,
    EnvFault,
> {
    let choice = (active_file(config_dir), text::trimmed(name));
    if exists_already {
        Ok(seq![choice])
    } else {
        match formats::variables_yaml(Seq::empty()) {
            Ok(yaml) => Ok(seq![(env_file(config_dir, name), yaml), choice]),
            Err(e) => Err(EnvFault::Serialize(e)),
        }
    }
}

/// What is written to set one variable in the file of an environment, given what the file held.
pub open spec fn variable_write(
    config_dir: Seq<char>,
    name: Seq<char>,
    content: Option<Seq<char>>,
    key: Seq<char>,
    value: Seq<char>,
) -> Result<(Seq<char>, Seq<char>), EnvFault> {
    match loaded(content) {
        Ok(vars) => match formats::variables_yaml(rows::with_entry(vars, key, value)) {
            Ok(yaml) => Ok((env_file(config_dir, name), yaml)),
            Err(e) => Err(EnvFault::Serialize(e)),
        },
        Err(e) => Err(e),
    }
}

/// The environment that a variable is set in: the active one, or `default`.
pub open spec fn target(active: Option<Seq<char>>) -> Seq<char> {
    match active_name(active) {
        Some(name) => name,
        None => "default"@,
    }
}

/// What the file of a new environment is found to hold after [`activation`].
pub open spec fn after_activation(content: Option<Seq<char>>) -> Option<Seq<char>> {
    match content {
        Some(t) => Some(t),
        None => match formats::variables_yaml(Seq::empty()) {
            Ok(yaml) => Some(yaml),
            Err(_) => None,
        },
    }
}

/// All that is written, in order, to set a variable in the active environment, and whether that
/// came to its end. Without an active environment `default` is made the active one first.
pub open spec fn variable_update(
    config_dir: Seq<char>,
    active: Option<Seq<char>>,
    content: Option<Seq<char>>,
    key: Seq<char>,
    value: Seq<char>,
) -> (Seq<(Seq<char>, Seq<char>)>, Result<(), EnvFault>) {
    match active_name(active) {
        Some(name) => match variable_write(config_dir, name, content, key, value) {
            Ok(w) => (seq![w], Ok(())),
            Err(e) => (Seq::empty(), Err(e)),
        },
        None => match activation(config_dir, "default"@, content is Some) {
            Ok(first) => match variable_write(
                config_dir,
                "default"@,
                after_activation(content),
                key,
                value,
            ) {
                Ok(w) => (first.push(w), Ok(())),
                Err(e) => (first, Err(e)),
            },
            Err(e) => (Seq::empty(), Err(e)),
        },
    }
}

/// What the file that an update works on holds when it is read.
pub open spec fn worked_on(active: Option<Seq<char>>, content: Option<Seq<char>>) -> Option<
    Seq<char>,
> {
    match active_name(active) {
        Some(_) => content,
        None => after_activation(content),
    }
}

/// Whether the text `written` to the file of an environment reads back as the variables that the
/// file had, with `key` set to `value`.
pub open spec fn reads_back(
    content: Option<Seq<char>>,
    key: Seq<char>,
    value: Seq<char>,
    written: Seq<char>,
) -> bool {
    loaded(content) matches Ok(had) ==> updated(had, loaded(Some(written)), key, value)
}

/// The writes of an update and whether it came to its end.
pub struct EnvUpdate {
    pub writes: Vec<FileWrite>,
    pub outcome: Result<(), EnvError>,
}

impl View for EnvUpdate {
    type V = (Seq<(Seq<char>, Seq<char>)>, Result<(), EnvFault>);

    open spec fn view(&self) -> Self::V {
        (
            write_texts(self.writes@),
            match self.outcome {
                Ok(()) => Ok(()),
                Err(e) => Err(e@),
            },
        )
    }
}

/// What the two files that an update reads hold: the one of the active name, and the one of the
/// environment that is worked on.
pub struct EnvFiles {
    pub active: Option<String>,
    pub content: Option<String>,
}

/// The model of an [`EnvFiles`].
pub ghost struct FilesModel {
    pub active: Option<Seq<char>>,
    pub content: Option<Seq<char>>,
}

impl View for EnvFiles {
    type V = FilesModel;

    open spec fn view(&self) -> FilesModel {
        FilesModel {
            active: formats::opt_text(self.active),
            content: formats::opt_text(self.content),
        }
    }
}

impl FilesModel {
    /// The variables that an update finds.
    pub open spec fn found(self) -> Result<Seq<rows::Entry>, EnvFault> {
        loaded(worked_on(self.active, self.content))
    }
}

/// Whether variables are those that were there, with `key` set to `value`.
pub open spec fn updated(
    had: Seq<rows::Entry>,
    has: Result<Seq<rows::Entry>, EnvFault>,
    key: Seq<char>,
    value: Seq<char>,
) -> bool {
    &&& has is Ok
    &&& rows::value_of(has->Ok_0, key) == Some(value)
    &&& forall|other: Seq<char>|
        other != key ==> #[trigger] rows::value_of(has->Ok_0, other) == rows::value_of(had, other)
}

/// What both files hold after an update.
pub open spec fn after_update(
    config_dir: Seq<char>,
    files: FilesModel,
    key: Seq<char>,
    value: Seq<char>,
) -> FilesModel {
    let update = variable_update(config_dir, files.active, files.content, key, value);
    FilesModel {
        active: match active_name(files.active) {
            Some(_) => files.active,
            None => Some("default"@),
        },
        content: match update.1 {
            Ok(_) => Some(update.0.last().1),
            Err(_) => worked_on(files.active, files.content),
        },
    }
}

/// The names of the environments among the files of their directory.
pub open spec fn env_names(files: Seq<Seq<char>>) -> Seq<Seq<char>>
    decreases files.len(),
{
    if files.len() == 0 {
        Seq::empty()
    } else {
        let rest = env_names(files.drop_last());
        match (paths::suffix(files.last()), paths::stem(files.last())) {
            (Some(e), Some(name)) => if e == "yaml"@ {
                rest.push(name)
            } else {
                rest
            },
            _ => rest,
        }
    }
}

/// How the variable `key` is written in a template.
pub open spec fn placeholder(key: Seq<char>) -> Seq<char> {
    "{{"@ + key + "}}"@
}

/// `t` with the placeholders of all variables replaced, one variable after the other.
pub open spec fn interpolated(t: Seq<char>, vars: Seq<rows::Entry>) -> Seq<char>
    decreases vars.len(),
{
    if vars.len() == 0 {
        t
    } else {
        text::replaced(
            interpolated(t, vars.drop_last()),
            placeholder(vars.last().0),
            vars.last().1,
        )
    }
}

/// A text without `{{` has no placeholder, so no variable changes it.
pub proof fn law_plain_text_stays(t: Seq<char>, vars: Seq<rows::Entry>)
    requires
        !text::occurs(t, "{{"@),
    ensures
        interpolated(t, vars) == t,
    decreases vars.len(),
{
    if vars.len() > 0 {
        law_plain_text_stays(t, vars.drop_last());
        let p = placeholder(vars.last().0);
        assert forall|i: int| !text::stands_at(t, p, i) by {
            if text::stands_at(t, p, i) {
                let n = "{{"@.len() as int;
                assert(p.subrange(0, n) == "{{"@);
                assert(t.subrange(i, i + p.len()).subrange(0, n) == t.subrange(i, i + n));
                assert(text::stands_at(t, "{{"@, i));
            }
        }
        text::law_nothing_to_replace(t, p, vars.last().1);
    }
}

/// The first placeholder of a variable becomes its value, the text before it stays, and the text
/// behind it is filled in turn.
pub proof fn law_placeholder_becomes_value(
    a: Seq<char>,
    b: Seq<char>,
    key: Seq<char>,
    value: Seq<char>,
)
    requires
        forall|i: int|
            0 <= i < a.len() ==> !text::stands_at(a + placeholder(key) + b, placeholder(key), i),
    ensures
        interpolated(a + placeholder(key) + b, seq![(key, value)]) == a + value + interpolated(
            b,
            seq![(key, value)],
        ),
{
    reveal_strlit("{{");
    let vars = seq![(key, value)];
    let t = a + placeholder(key) + b;
    assert(vars.drop_last() == Seq::<rows::Entry>::empty());
    assert(interpolated(t, vars.drop_last()) == t);
    assert(interpolated(b, vars.drop_last()) == b);
    text::law_replaced_in_place(a, placeholder(key), b, value);
}

/// The name that an activation writes is the active name afterwards, if it is not blank.
pub proof fn law_activation_is_read_back(
    config_dir: Seq<char>,
    name: Seq<char>,
    exists_already: bool,
)
    ensures
        activation(config_dir, name, exists_already) matches Ok(writes) ==> {
            &&& writes.last().0 == active_file(config_dir)
            &&& active_name(Some(writes.last().1)) == (if text::trimmed(name).len() == 0 {
                None
            } else {
                Some(text::trimmed(name))
            })
        },
{
    text::law_trimmed_once(name);
}

/// The environments under one configuration directory.
pub struct EnvManager {
    pub config_dir: String,
}

impl Clone for EnvManager {
    fn clone(&self) -> (r: Self)
        ensures
            r == *self,
    {
        EnvManager { config_dir: self.config_dir.clone() }
    }
}

impl EnvManager {
    /// The manager of the local directory `.rnm` if there is one, else of the user's
    /// configuration directory, else of `.rnm` all the same.
    pub fn new(local_dir_exists: bool, project_config_dir: Option<String>) -> (r: Self)
        ensures
            r.config_dir@ == match project_config_dir {
                Some(dir) if !local_dir_exists => dir@,
                _ => ".rnm"@,
            },
    {
        let config_dir: String = if local_dir_exists {
            ".rnm".to_string()
        } else {
            match project_config_dir {
                Some(dir) => dir,
                None => ".rnm".to_string(),
            }
        };
        EnvManager { config_dir }
    }

    /// The configuration directory.
    pub fn config_dir(&self) -> (r: &str)
        ensures
            r@ == self.config_dir@,
    {
        self.config_dir.as_str()
    }

    /// The file that holds the name of the active environment.
    pub fn get_active_env_path(&self) -> (r: String)
        ensures
            r@ == active_file(self.config_dir@),
    {
        join_path(self.config_dir.as_str(), "active_env")
    }

    /// The directory of the environments' files.
    pub fn get_env_dir(&self) -> (r: String)
        ensures
            r@ == paths::under(self.config_dir@, "env"@),
    {
        join_path(self.config_dir.as_str(), "env")
    }

    /// The file that holds the variables of the environment `name`.
    pub fn env_file_path(&self, name: &str) -> (r: String)
        ensures
            r@ == env_file(self.config_dir@, name@),
    {
        join_path(self.get_env_dir().as_str(), concat2(name, ".yaml").as_str())
    }

    /// The name of the active environment, given what its file holds (`None` where there is no
    /// such file).
    pub fn get_active_env_name(&self, content: &Option<String>) -> (r: Option<String>)
        ensures
            formats::opt_text(r) == active_name(formats::opt_text(*content)),
    {
        match content {
            Some(t) => {
                let name: String = trim(t.as_str());
                if name.as_str().is_empty() {
                    None
                } else {
                    Some(name)
                }
            },
            None => None,
        }
    }

    /// What to write to make `name` the active environment, given whether its file is there.
    pub fn set_active_env(&self, name: &str, exists_already: bool) -> (r: Result<
        Vec<FileWrite>,
        EnvError,
    >)
        ensures
            match r {
                Ok(writes) => activation(self.config_dir@, name@, exists_already) == Ok::<
                    Seq<(Seq<char>, Seq<char>)>,
                    EnvFault,
                >(write_texts(writes@)),
                Err(e) => activation(self.config_dir@, name@, exists_already) == Err::<
                    Seq<(Seq<char>, Seq<char>)>,
                    EnvFault,
                >(e@),
            },
            r is Ok,
            !exists_already ==> loaded(after_activation(None)) == Ok::<
                Seq<rows::Entry>,
                EnvFault,
            >(Seq::empty()),
    {
        let mut writes: Vec<FileWrite> = Vec::new();
        if !exists_already {
            let empty: Vec<(String, String)> = Vec::new();
            assert(rows::entries(empty@) == Seq::<rows::Entry>::empty());
            match yaml_of_variables(&empty) {
                Ok(yaml) => {
                    writes.push(FileWrite { path: self.env_file_path(name), text: yaml });
                },
                Err(e) => {
                    return Err(EnvError::Serialize(e));
                },
            }
        }
        let ghost first = writes@;
        writes.push(FileWrite { path: self.get_active_env_path(), text: trim(name) });
        proof {
            let choice = (active_file(self.config_dir@), text::trimmed(name@));
            if exists_already {
                assert(write_texts(writes@) =~= seq![choice]);
            } else {
                assert(write_texts(writes@) =~= seq![(first[0].path@, first[0].text@), choice]);
            }
        }
        Ok(writes)
    }

    /// The variables of an environment, given what its file holds (`None` where there is no such
    /// file).
    pub fn load_env(&self, content: &Option<String>) -> (r: Result<
        Vec<(String, String)>,
        EnvError,
    >)
        ensures
            loaded_view(r) == loaded(formats::opt_text(*content)),
            r matches Ok(vars) ==> rows::distinct_keys(rows::entries(vars@)),
    {
        match content {
            Some(t) => match variables_of_yaml(t.as_str()) {
                Ok(vars) => Ok(vars),
                Err(_) => Err(EnvError::Parse),
            },
            None => {
                let none: Vec<(String, String)> = Vec::new();
                assert(rows::entries(none@) == Seq::<rows::Entry>::empty());
                Ok(none)
            },
        }
    }

    /// The variables of the active environment, given what the file of the active name holds and
    /// what the file of the environment so named holds.
    pub fn load_active_env(&self, active: &Option<String>, content: &Option<String>) -> (r: Result<
        Vec<(String, String)>,
        EnvError,
    >)
        ensures
            loaded_view(r) == match active_name(formats::opt_text(*active)) {
                Some(_) => loaded(formats::opt_text(*content)),
                None => Ok(Seq::empty()),
            },
            r matches Ok(vars) ==> rows::distinct_keys(rows::entries(vars@)),
    {
        match self.get_active_env_name(active) {
            Some(_) => self.load_env(content),
            None => self.load_env(&None),
        }
    }

    /// What to write to save `vars` as the environment `name`.
    pub fn save_env(&self, name: &str, vars: &Vec<(String, String)>) -> (r: Result<
        FileWrite,
        EnvError,
    >)
        ensures
            match formats::variables_yaml(rows::entries(vars@)) {
                Ok(yaml) => r matches Ok(w) && w.path@ == env_file(self.config_dir@, name@)
                    && w.text@ == yaml,
                Err(e) => r matches Err(f) && f@ == EnvFault::Serialize(e),
            },
            rows::distinct_keys(rows::entries(vars@)) ==> (r matches Ok(w) && formats::yaml_variables(w.text@) == Ok::<
                Seq<rows::Entry>,
                Seq<char>,
            >(rows::sorted(rows::entries(vars@)))),
    {
        match yaml_of_variables(vars) {
            Ok(yaml) => Ok(FileWrite { path: self.env_file_path(name), text: yaml }),
            Err(e) => Err(EnvError::Serialize(e)),
        }
    }

    /// The environment whose file [`EnvManager::update_active_env_var`] works on.
    pub fn update_target(&self, active: &Option<String>) -> (r: String)
        ensures
            r@ == target(formats::opt_text(*active)),
    {
        match self.get_active_env_name(active) {
            Some(name) => name,
            None => "default".to_string(),
        }
    }

    fn variable_write(&self, name: &str, content: &Option<String>, key: &str, value: &str) -> (r:
        Result<FileWrite, EnvError>)
        ensures
            match variable_write(
                self.config_dir@,
                name@,
                formats::opt_text(*content),
                key@,
                value@,
            ) {
                Ok(w) => r matches Ok(f) && (f.path@, f.text@) == w,
                Err(e) => r matches Err(f) && f@ == e,
            },
            r matches Ok(f) ==> reads_back(formats::opt_text(*content), key@, value@, f.text@),
            r is Ok <==> loaded(formats::opt_text(*content)) is Ok,
    {
        match self.load_env(content) {
            Ok(found) => {
                let ghost had = rows::entries(found@);
                let mut vars: Vec<(String, String)> = found;
                set_entry(&mut vars, key, value);
                proof {
                    let now = rows::with_entry(had, key@, value@);
                    rows::law_with_entry(had, key@, value@, key@);
                    rows::law_sorted_keeps_values(now, key@);
                    assert forall|other: Seq<char>|
                        other != key@ implies #[trigger] rows::value_of(rows::sorted(now), other)
                        == rows::value_of(had, other) by {
                        rows::law_with_entry(had, key@, value@, other);
                        rows::law_sorted_keeps_values(now, other);
                    }
                }
                self.save_env(name, &vars)
            },
            Err(e) => Err(e),
        }
    }

    /// What to write to set a variable in the active environment, given what the file of the
    /// active name holds and what the file of [`EnvManager::update_target`] holds. Where the
    /// update fails, the writes before the failure are there all the same.
    pub fn update_active_env_var(
        &self,
        active: &Option<String>,
        content: &Option<String>,
        key: &str,
        value: &str,
    ) -> (r: EnvUpdate)
        ensures
            r@ == variable_update(
                self.config_dir@,
                formats::opt_text(*active),
                formats::opt_text(*content),
                key@,
                value@,
            ),
            r.outcome is Ok <==> loaded(
                worked_on(formats::opt_text(*active), formats::opt_text(*content)),
            ) is Ok,
            *content is None ==> loaded(
                worked_on(formats::opt_text(*active), formats::opt_text(*content)),
            ) == Ok::<Seq<rows::Entry>, EnvFault>(Seq::empty()),
            r.outcome is Ok ==> {
                &&& r.writes@.len() > 0
                &&& r.writes@.last().path@ == env_file(
                    self.config_dir@,
                    target(formats::opt_text(*active)),
                )
                &&& reads_back(
                    worked_on(formats::opt_text(*active), formats::opt_text(*content)),
                    key@,
                    value@,
                    r.writes@.last().text@,
                )
            },
    {
        let mut writes: Vec<FileWrite> = Vec::new();
        assert(write_texts(writes@) =~= Seq::empty());
        match self.get_active_env_name(active) {
            Some(name) => match self.variable_write(name.as_str(), content, key, value) {
                Ok(w) => {
                    let ghost done = (w.path@, w.text@);
                    writes.push(w);
                    assert(write_texts(writes@) =~= seq![done]);
                    EnvUpdate { writes, outcome: Ok(()) }
                },
                Err(e) => EnvUpdate { writes, outcome: Err(e) },
            },
            None => match self.set_active_env("default", content.is_some()) {
                Ok(first) => {
                    assert(write_texts(first@).len() == first@.len());
                    let now: Option<String> = match content {
                        Some(t) => Some(t.clone()),
                        None => Some(first[0].text.clone()),
                    };
                    assert(content is None ==> write_texts(first@)[0].1 == first@[0].text@);
                    assert(formats::opt_text(now) == after_activation(formats::opt_text(*content)));
                    let ghost before = first@;
                    writes = first;
                    match self.variable_write("default", &now, key, value) {
                        Ok(w) => {
                            let ghost done = (w.path@, w.text@);
                            writes.push(w);
                            assert(write_texts(writes@) =~= write_texts(before).push(done));
                            EnvUpdate { writes, outcome: Ok(()) }
                        },
                        Err(e) => EnvUpdate { writes, outcome: Err(e) },
                    }
                },
                Err(e) => EnvUpdate { writes, outcome: Err(e) },
            },
        }
    }

    /// Sets a variable in the active environment, given what its files hold: what to write, and
    /// what the files hold afterwards.
    pub fn update_files(&self, files: EnvFiles, key: &str, value: &str) -> (r: (
        EnvUpdate,
        EnvFiles,
    ))
        ensures
            r.0@ == variable_update(
                self.config_dir@,
                files@.active,
                files@.content,
                key@,
                value@,
            ),
            r.1@ == after_update(self.config_dir@, files@, key@, value@),
            r.0.outcome is Ok <==> files@.found() is Ok,
            files@.content is None ==> files@.found() == Ok::<Seq<rows::Entry>, EnvFault>(
                Seq::empty(),
            ),
            files@.found() matches Ok(had) ==> updated(had, r.1@.found(), key@, value@),
    {
        let update: EnvUpdate = self.update_active_env_var(
            &files.active,
            &files.content,
            key,
            value,
        );
        assert(write_texts(update.writes@).len() == update.writes@.len());
        let named: bool = self.get_active_env_name(&files.active).is_some();
        let content: Option<String> = match &update.outcome {
            Ok(_) => Some(update.writes[update.writes.len() - 1].text.clone()),
            Err(_) => files.content,
        };
        let active: Option<String> = if named {
            files.active
        } else {
            Some("default".to_string())
        };
        (update, EnvFiles { active, content })
    }

    /// The names of the environments, given the files in their directory: those that end in
    /// `.yaml`.
    pub fn list_envs(&self, files: &Vec<String>) -> (r: Vec<String>)
        ensures
            text::views(r@) == env_names(text::views(files@)),
    {
        let mut envs: Vec<String> = Vec::new();
        for i in 0..files.len()
            invariant
                text::views(envs@) == env_names(text::views(files@).take(i as int)),
        {
            let ghost all = text::views(files@).take(i + 1);
            assert(all.drop_last() == text::views(files@).take(i as int));
            assert(all.last() == files@[i as int]@);
            let ghost done = envs@;
            match (extension(files[i].as_str()), file_stem(files[i].as_str())) {
                (Some(e), Some(name)) => {
                    if same_text(e.as_str(), "yaml") {
                        let ghost n = name@;
                        envs.push(name);
                        assert(text::views(envs@) == text::views(done).push(n));
                    }
                },
                _ => {},
            }
        }
        assert(text::views(files@).take(files@.len() as int) == text::views(files@));
        envs
    }

    /// `text` with `{{name}}` replaced by the value of each variable, one after the other in the
    /// order in which they are given.
    pub fn replace_variables(&self, text: &str, env: &Vec<(String, String)>) -> (r: String)
        ensures
            r@ == interpolated(text@, rows::entries(env@)),
    {
        let mut result: String = text.to_string();
        for i in 0..env.len()
            invariant
                result@ == interpolated(text@, rows::entries(env@).take(i as int)),
        {
            let ghost all = rows::entries(env@).take(i + 1);
            assert(all.drop_last() == rows::entries(env@).take(i as int));
            assert(all.last() == rows::entries(env@)[i as int]);
            let sign: String = concat3("{{", env[i].0.as_str(), "}}");
            proof {
                reveal_strlit("{{");
            }
            result = replace_all(result.as_str(), sign.as_str(), env[i].1.as_str());
        }
        assert(rows::entries(env@).take(env@.len() as int) == rows::entries(env@));
        result
    }
}

} // verus!
