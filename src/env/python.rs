//! The active Python environments, from environment variables.
use crate::env::path::{file_name_of, parse_path, text_option, Path};
use vstd::prelude::*;

verus! {

/// The name of the venv whose directory is `dir`: the last component of the path.
pub open spec fn venv_name(dir: Option<Seq<char>>) -> Option<Seq<char>> {
    match dir {
        Some(d) => file_name_of(parse_path(d)),
        None => None,
    }
}

/// Gets the name of the active venv, if any, from a set of environment variables: the
/// last component of the value of `VIRTUAL_ENV`, where it is a name.
///
/// `get_env_var` is called with the name of a variable, and must return its value,
/// or `None` where it is not set.
pub fn query_venv(get_env_var: impl Fn(&str) -> Option<String>) -> (r: Option<String>)
    requires
        forall|name: &str| get_env_var.requires((name,)),
    ensures
        exists|dir: Option<String>|
            #[trigger] get_env_var.ensures(("VIRTUAL_ENV",), dir) && text_option(r) == venv_name(
                text_option(dir),
            ),
{
    let dir = get_env_var("VIRTUAL_ENV");
    let r = match &dir {
        Some(d) => Path::new(d.as_str()).file_name(),
        None => None,
    };
    assert(get_env_var.ensures(("VIRTUAL_ENV",), dir));
    r
}

/// Gets the name of the active conda environment, if any, from a set of environment
/// variables: the value of `CONDA_DEFAULT_ENV`.
///
/// `get_env_var` is called with the name of a variable, and must return its value,
/// or `None` where it is not set.
pub fn query_conda_env<T>(get_env_var: impl Fn(&str) -> Option<T>) -> (r: Option<T>)
    requires
        forall|name: &str| get_env_var.requires((name,)),
    ensures
        get_env_var.ensures(("CONDA_DEFAULT_ENV",), r),
{
    get_env_var("CONDA_DEFAULT_ENV")
}

} // verus!
