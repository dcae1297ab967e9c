//! Registered projects and the resolution of a build request against them:
//! effective module, variant and build type, build-tool task and output directory.

use vstd::prelude::*;

verus! {

/// A registered project.
pub struct Project {
    pub name: String,
    pub path: String,
    pub default_module: Option<String>,
    pub modules: Option<Vec<String>>,
    pub default_variant: Option<String>,
    pub variants: Option<Vec<String>>,
    pub build_type: Option<String>,
}

/// The characters of an optional string.
pub open spec fn opt_view(o: Option<String>) -> Option<Seq<char>> {
    match o {
        Some(s) => Some(s@),
        None => None,
    }
}

/// The first element of an optional list, if there is one.
pub open spec fn first_of(list: Option<Vec<String>>) -> Option<Seq<char>> {
    match list {
        Some(v) => if v@.len() > 0 { Some(v@[0]@) } else { None },
        None => None,
    }
}

/// Precedence of a build parameter: the explicit value, else the first of the
/// project's list, else the project's singular default.
pub open spec fn resolved(
    explicit: Option<Seq<char>>,
    list: Option<Vec<String>>,
    default: Option<Seq<char>>,
) -> Option<Seq<char>> {
    if explicit is Some {
        explicit
    } else if first_of(list) is Some {
        first_of(list)
    } else {
        default
    }
}

/// The build type used when neither the request nor the project names one.
pub open spec fn fallback_build_type() -> Seq<char> {
    seq!['D', 'e', 'b', 'u', 'g']
}

/// The effective build type.
pub open spec fn resolved_build_type(explicit: Option<Seq<char>>, default: Option<Seq<char>>) -> Seq<char> {
    match explicit {
        Some(b) => b,
        None => match default {
            Some(b) => b,
            None => fallback_build_type(),
        },
    }
}

/// The build-tool task: `assemble<Variant><BuildType>`, under `:<module>:` when
/// a module is set. The caller's spelling is kept as it is.
pub open spec fn task_id(module: Option<Seq<char>>, variant: Option<Seq<char>>, build_type: Seq<char>) -> Seq<char> {
    let flavour = match variant {
        Some(v) => v + build_type,
        None => build_type,
    };
    match module {
        Some(m) => seq![':'] + m + seq![':'] + "assemble"@ + flavour,
        None => "assemble"@ + flavour,
    }
}

/// `base` joined with the relative or absolute path `part`, as a path join does
/// on a Unix-like system.
pub open spec fn path_join(base: Seq<char>, part: Seq<char>) -> Seq<char> {
    if part.len() > 0 && part[0] == '/' {
        part
    } else if base.len() == 0 || base.last() == '/' {
        base + part
    } else {
        base + seq!['/'] + part
    }
}

/// The project directory, descended into the module when one is set.
pub open spec fn module_dir(root: Seq<char>, module: Option<Seq<char>>) -> Seq<char> {
    match module {
        Some(m) => path_join(root, m),
        None => root,
    }
}

/// The output directory: the explicit one, else
/// `<root>/<module?>/<variant?>/<build type>`.
pub open spec fn output_dir_of(
    custom: Option<Seq<char>>,
    root: Seq<char>,
    module: Option<Seq<char>>,
    variant: Option<Seq<char>>,
    build_type: Seq<char>,
) -> Seq<char> {
    match custom {
        Some(c) => c,
        None => {
            let with_module = module_dir(root, module);
            let with_variant = match variant {
                Some(v) => path_join(with_module, v),
                None => with_module,
            };
            path_join(with_variant, build_type)
        },
    }
}

/// The build-tool launcher's file name on the host platform.
pub open spec fn launcher_file(windows: bool) -> Seq<char> {
    if windows { "gradlew.bat"@ } else { "gradlew"@ }
}

/// `base` joined with `part` as a path.
pub fn join_path(base: &str, part: &str) -> (r: String)
    ensures
        r@ == path_join(base@, part@),
{
    let p = crate::text::chars_of(part);
    let b = crate::text::chars_of(base);
    if p.len() > 0 && p[0] == '/' {
        String::from_str(part)
    } else if b.len() == 0 || b[b.len() - 1] == '/' {
        let mut r = String::from_str(base);
        r.append(part);
        r
    } else {
        let mut r = String::from_str(base);
        r.append("/");
        r.append(part);
        proof {
            reveal_strlit("/");
        }
        assert(r@ =~= path_join(base@, part@));
        r
    }
}

pub(crate) fn clone_opt(o: &Option<String>) -> (r: Option<String>)
    ensures
        opt_view(r) == opt_view(*o),
{
    match o {
        Some(s) => Some(s.clone()),
        None => None,
    }
}

/// Resolves one optional build parameter by the precedence of [`resolved`].
pub fn resolve_param(
    explicit: Option<String>,
    list: &Option<Vec<String>>,
    default: &Option<String>,
) -> (r: Option<String>)
    ensures
        opt_view(r) == resolved(opt_view(explicit), *list, opt_view(*default)),
{
    if explicit.is_some() {
        return explicit;
    }
    match list {
        Some(v) => {
            if v.len() > 0 {
                return Some(v[0].clone());
            }
        },
        None => {},
    }
    clone_opt(default)
}

/// Resolves the build type: explicit, else the project's, else `Debug`.
pub fn resolve_build_type(explicit: Option<String>, default: &Option<String>) -> (r: String)
    ensures
        r@ == resolved_build_type(opt_view(explicit), opt_view(*default)),
{
    match explicit {
        Some(b) => b,
        None => match default {
            Some(b) => b.clone(),
            None => {
                proof {
                    reveal_strlit("Debug");
                }
                let r = String::from_str("Debug");
                assert(r@ =~= fallback_build_type());
                r
            },
        },
    }
}

/// The build-tool task for the resolved parameters.
pub fn task_name(module: &Option<String>, variant: &Option<String>, build_type: &String) -> (r: String)
    ensures
        r@ == task_id(opt_view(*module), opt_view(*variant), build_type@),
{
    let mut flavour = String::new();
    match variant {
        Some(v) => flavour.append(v.as_str()),
        None => {},
    }
    flavour.append(build_type.as_str());
    match module {
        Some(m) => {
            let mut r = String::from_str(":");
            r.append(m.as_str());
            r.append(":assemble");
            r.append(flavour.as_str());
            proof {
                reveal_strlit(":");
                reveal_strlit(":assemble");
                reveal_strlit("assemble");
            }
            assert(r@ =~= task_id(opt_view(*module), opt_view(*variant), build_type@));
            r
        },
        None => {
            let mut r = String::from_str("assemble");
            r.append(flavour.as_str());
            assert(r@ =~= task_id(opt_view(*module), opt_view(*variant), build_type@));
            r
        },
    }
}

/// The directory that is searched for artifacts: the project root, or the module in it.
pub fn module_root(root: &String, module: &Option<String>) -> (r: String)
    ensures
        r@ == module_dir(root@, opt_view(*module)),
{
    match module {
        Some(m) => join_path(root.as_str(), m.as_str()),
        None => root.clone(),
    }
}

/// The output directory for the resolved parameters.
pub fn output_dir(
    custom: &Option<String>,
    root: &String,
    module: &Option<String>,
    variant: &Option<String>,
    build_type: &String,
) -> (r: String)
    ensures
        r@ == output_dir_of(opt_view(*custom), root@, opt_view(*module), opt_view(*variant), build_type@),
{
    match custom {
        Some(c) => c.clone(),
        None => {
            let with_module = module_root(root, module);
            let with_variant = match variant {
                Some(v) => join_path(with_module.as_str(), v.as_str()),
                None => with_module,
            };
            join_path(with_variant.as_str(), build_type.as_str())
        },
    }
}

/// The path of the build-tool launcher in the project root.
pub fn launcher_path(root: &String, windows: bool) -> (r: String)
    ensures
        r@ == path_join(root@, launcher_file(windows)),
{
    if windows {
        join_path(root.as_str(), "gradlew.bat")
    } else {
        join_path(root.as_str(), "gradlew")
    }
}

} // verus!
