//! What holds of environments: which are listed, which is active, and what is written for them.

use crate::cli;
use crate::env;
use crate::formats;
use crate::list_laws;
use crate::paths;
use crate::rows;
use crate::text;
use crate::text_laws;
use vstd::prelude::*;
use vstd::string::*;

verus! {

// ---------------------------------------------------------------------------------------------
// Listing
// ---------------------------------------------------------------------------------------------

/// Whether a file is that of an environment of this name: it ends in `.yaml`, and the name is what
/// stands before that.
pub open spec fn file_of(file: Seq<char>, name: Seq<char>) -> bool {
    paths::suffix(file) == Some("yaml"@) && paths::stem(file) == Some(name)
}

/// An environment is listed exactly where the directory holds its file.
pub proof fn law_listed_where_there_is_a_file(files: Seq<Seq<char>>, name: Seq<char>)
    ensures
        env::env_names(files).contains(name) <==> exists|i: int|
            0 <= i < files.len() && file_of(#[trigger] files[i], name),
    decreases files.len(),
{
    let all = env::env_names(files);
    if files.len() > 0 {
        let rest = files.drop_last();
        let before = env::env_names(rest);
        law_listed_where_there_is_a_file(rest, name);
        if before.contains(name) {
            let k = choose|k: int| 0 <= k < before.len() && before[k] == name;
            assert(all[k] == name);
            let i = choose|i: int| 0 <= i < rest.len() && file_of(#[trigger] rest[i], name);
            assert(file_of(files[i], name));
        }
        if file_of(files.last(), name) {
            assert(all[all.len() - 1] == name);
            assert(file_of(files[files.len() - 1], name));
        }
        if exists|i: int| 0 <= i < files.len() && file_of(#[trigger] files[i], name) {
            let i = choose|i: int| 0 <= i < files.len() && file_of(#[trigger] files[i], name);
            if i < rest.len() {
                assert(file_of(rest[i], name));
            }
        }
        if all.contains(name) && !before.contains(name) {
            let k = choose|k: int| 0 <= k < all.len() && all[k] == name;
            if k < before.len() {
                assert(before[k] == name);
            }
        }
    } else {
        assert(all.len() == 0);
    }
}

/// One more file adds its environment at the end of the list; one that is no environment's adds
/// nothing.
pub proof fn law_one_more_file(files: Seq<Seq<char>>, file: Seq<char>, name: Seq<char>)
    ensures
        file_of(file, name) ==> env::env_names(files.push(file)) == env::env_names(files).push(name),
        paths::suffix(file) != Some("yaml"@) ==> env::env_names(files.push(file))
            == env::env_names(files),
        env::env_names(Seq::empty()) == Seq::<Seq<char>>::empty(),
{
    assert(files.push(file).drop_last() =~= files);
}

/// The environments of one directory after those of another are listed in this order.
pub proof fn law_lists_follow_each_other(a: Seq<Seq<char>>, b: Seq<Seq<char>>)
    ensures
        env::env_names(a + b) == env::env_names(a) + env::env_names(b),
    decreases b.len(),
{
    if b.len() == 0 {
        assert(a + b =~= a);
        assert(env::env_names(a) + env::env_names(b) =~= env::env_names(a));
    } else {
        assert((a + b).drop_last() =~= a + b.drop_last());
        law_lists_follow_each_other(a, b.drop_last());
        assert(env::env_names(a) + env::env_names(b) =~= env::env_names(a + b));
    }
}

/// The file of an environment lies in the directory `env` under the name of the environment, so
/// that the environment is listed once its file is there.
pub proof fn law_file_of_an_environment(config_dir: Seq<char>, name: Seq<char>)
    requires
        name.len() > 0,
        !name.contains('/'),
    ensures
        env::env_file(config_dir, name) == paths::under(
            paths::under(config_dir, "env"@),
            name + ".yaml"@,
        ),
        paths::base_name(env::env_file(config_dir, name)) == Some(name + ".yaml"@),
        file_of(env::env_file(config_dir, name), name),
{
    reveal_strlit(".yaml");
    reveal_strlit("yaml");
    reveal_strlit(".");
    reveal_strlit("..");
    let file = name + ".yaml"@;
    assert forall|i: int| 0 <= i < file.len() implies file[i] != '/' by {
        if i < name.len() {
            assert(file[i] == name[i]);
        }
    }
    assert(file.len() > 2);
    list_laws::law_under(paths::under(config_dir, "env"@), file);
    assert(file =~= name + seq!['.'] + "yaml"@);
    list_laws::law_extension_and_stem(env::env_file(config_dir, name), name, "yaml"@);
}

/// Different environments have different files, and none is the file of the active name.
pub proof fn law_files_are_apart(config_dir: Seq<char>, a: Seq<char>, b: Seq<char>)
    requires
        a.len() > 0 && !a.contains('/'),
        b.len() > 0 && !b.contains('/'),
        a != b,
    ensures
        env::env_file(config_dir, a) != env::env_file(config_dir, b),
        env::env_file(config_dir, a) != env::active_file(config_dir),
{
    law_file_of_an_environment(config_dir, a);
    law_file_of_an_environment(config_dir, b);
    law_active_file(config_dir);
}

/// The file of the active name is called `active_env`.
pub proof fn law_active_file(config_dir: Seq<char>)
    ensures
        paths::base_name(env::active_file(config_dir)) == Some("active_env"@),
        paths::suffix(env::active_file(config_dir)) is None,
{
    reveal_strlit("active_env");
    reveal_strlit(".");
    reveal_strlit("..");
    list_laws::law_under(config_dir, "active_env"@);
    list_laws::law_no_dot_no_extension(env::active_file(config_dir), "active_env"@);
}

// ---------------------------------------------------------------------------------------------
// The active environment
// ---------------------------------------------------------------------------------------------

/// The active name is what its file holds, without the white space around it; a file that holds
/// nothing else names none, and so does a file that is not there.
pub proof fn law_active_name(a: Seq<char>, name: Seq<char>, b: Seq<char>)
    requires
        text_laws::all_white(a),
        text_laws::all_white(b),
        name.len() > 0 ==> !text::white(name[0]) && !text::white(name.last()),
    ensures
        name.len() > 0 ==> env::active_name(Some(a + name + b)) == Some(name),
        name.len() == 0 ==> env::active_name(Some(a + name + b)) is None,
        env::active_name(None) is None,
{
    text_laws::law_trimming_takes_white_space_off(a, name, b);
}

/// Variables are set in the active environment, and in `default` where there is none.
pub proof fn law_target(active: Option<Seq<char>>)
    ensures
        env::active_name(active) matches Some(name) ==> env::target(active) == name,
        env::active_name(active) is None ==> env::target(active) == "default"@,
{
}

/// A request takes the environment that is asked for, else the active one, else `default`.
pub proof fn law_profile(asked: Seq<char>, active: Seq<char>, other: Option<Seq<char>>)
    ensures
        cli::profile(Some(asked), other) == asked,
        cli::profile(None, Some(active)) == active,
        cli::profile(None, None) == "default"@,
{
}

/// An environment that has no file has no variables; one whose file is no mapping of strings cannot
/// be loaded; else its variables are those of the file.
pub proof fn law_loading(t: Seq<char>)
    ensures
        env::loaded(None) == Ok::<Seq<rows::Entry>, env::EnvFault>(Seq::empty()),
        formats::yaml_variables(t) matches Ok(vars) ==> env::loaded(Some(t)) == Ok::<
            Seq<rows::Entry>,
            env::EnvFault,
        >(vars),
        formats::yaml_variables(t) is Err ==> env::loaded(Some(t)) is Err,
{
}

// ---------------------------------------------------------------------------------------------
// What is written
// ---------------------------------------------------------------------------------------------

/// To make an environment the active one, its name is written, without the white space around it,
/// to the file of the active name. An environment that has a file keeps it; one that has none gets
/// a file without variables first. Nothing else is written.
pub proof fn law_activation_writes(
    config_dir: Seq<char>,
    name: Seq<char>,
    exists_already: bool,
    writes: Seq<(Seq<char>, Seq<char>)>,
)
    requires
        env::activation(config_dir, name, exists_already) == Ok::<
            Seq<(Seq<char>, Seq<char>)>,
            env::EnvFault,
        >(writes),
    ensures
        writes.len() == if exists_already {
            1int
        } else {
            2int
        },
        writes.last() == (env::active_file(config_dir), text::trimmed(name)),
        !exists_already ==> writes[0].0 == env::env_file(config_dir, name) && Ok::<
            Seq<char>,
            Seq<char>,
        >(writes[0].1) == formats::variables_yaml(Seq::empty()),
{
}

/// Setting a variable writes the file of the environment that it is set in, once and last. Where an
/// environment is active, nothing else is written; where none is, `default` is made the active one
/// before, and its file is kept if it has one. An update that fails does not write that file last.
pub proof fn law_update_writes(
    config_dir: Seq<char>,
    active: Option<Seq<char>>,
    content: Option<Seq<char>>,
    key: Seq<char>,
    value: Seq<char>,
)
    ensures
        ({
            let (writes, outcome) = env::variable_update(config_dir, active, content, key, value);
            &&& outcome is Ok ==> writes.len() > 0 && writes.last().0 == env::env_file(
                config_dir,
                env::target(active),
            )
            &&& env::active_name(active) is Some && outcome is Ok ==> writes.len() == 1
            &&& env::active_name(active) is Some && outcome is Err ==> writes.len() == 0
            &&& env::active_name(active) is None && outcome is Ok ==> writes.len()
                == if content is Some {
                2int
            } else {
                3int
            }
            &&& env::active_name(active) is None && outcome is Ok ==> writes[writes.len() - 2] == (
                env::active_file(config_dir),
                text::trimmed("default"@),
            )
        }),
{
}

/// What is written for a variable is the variables that were there with this one set: the file is
/// that of all of them, in the order in which they were loaded.
pub proof fn law_variable_write(
    config_dir: Seq<char>,
    name: Seq<char>,
    content: Option<Seq<char>>,
    key: Seq<char>,
    value: Seq<char>,
    had: Seq<rows::Entry>,
    other: Seq<char>,
)
    requires
        env::loaded(content) == Ok::<Seq<rows::Entry>, env::EnvFault>(had),
        rows::distinct_keys(had),
    ensures
        env::variable_write(config_dir, name, content, key, value) matches Ok(w) ==> {
            &&& w.0 == env::env_file(config_dir, name)
            &&& exists|now: Seq<rows::Entry>|
                {
                    &&& #[trigger] formats::variables_yaml(now) == Ok::<Seq<char>, Seq<char>>(w.1)
                    &&& rows::distinct_keys(now)
                    &&& rows::value_of(now, key) == Some(value)
                    &&& other != key ==> rows::value_of(now, other) == rows::value_of(had, other)
                }
        },
        env::loaded(content) is Err ==> env::variable_write(config_dir, name, content, key, value)
            is Err,
{
    rows::law_with_entry(had, key, value, other);
    let now = rows::with_entry(had, key, value);
    assert(formats::variables_yaml(now) is Ok || formats::variables_yaml(now) is Err);
}

/// After an update the file of the active name still names an environment: the one that was active,
/// or `default`.
pub proof fn law_update_keeps_the_active_name(
    config_dir: Seq<char>,
    files: env::FilesModel,
    key: Seq<char>,
    value: Seq<char>,
)
    ensures
        env::active_name(files.active) is Some ==> env::after_update(
            config_dir,
            files,
            key,
            value,
        ).active == files.active,
        env::active_name(files.active) is None ==> env::after_update(
            config_dir,
            files,
            key,
            value,
        ).active == Some("default"@),
{
}

// ---------------------------------------------------------------------------------------------
// Filling in variables
// ---------------------------------------------------------------------------------------------

/// One more variable is filled in behind the others: each of its placeholders, in what the others
/// gave, becomes its value. Without variables a text stays.
pub proof fn law_one_more_variable(
    t: Seq<char>,
    vars: Seq<rows::Entry>,
    key: Seq<char>,
    value: Seq<char>,
)
    ensures
        env::interpolated(t, vars.push((key, value))) == text::replaced(
            env::interpolated(t, vars),
            "{{"@ + key + "}}"@,
            value,
        ),
        env::interpolated(t, Seq::empty()) == t,
{
    assert(vars.push((key, value)).drop_last() =~= vars);
}

/// A variable without a placeholder in a text does not change it.
pub proof fn law_unused_variables_do_not_matter(
    t: Seq<char>,
    key: Seq<char>,
    value: Seq<char>,
)
    requires
        !text::occurs(t, "{{"@ + key + "}}"@),
    ensures
        env::interpolated(t, seq![(key, value)]) == t,
{
    let vars = seq![(key, value)];
    assert(vars.drop_last() =~= Seq::empty());
    assert(env::interpolated(t, vars.drop_last()) == t);
    text::law_nothing_to_replace(t, "{{"@ + key + "}}"@, value);
}

} // verus!
