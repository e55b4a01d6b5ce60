use vstd::prelude::*;
use vstd::string::StringExecFns;
use crate::text::{has_prefix, starts_with};

verus! {

/// Relies on `dirs::config_dir`: the platform's configuration directory,
/// when one is known. It depends on the environment, so nothing is promised
/// of it.
#[verifier::external_body]
fn config_dir() -> (r: Option<String>) {
    match dirs::config_dir() {
        Some(p) => Some(p.to_string_lossy().into_owned()),
        None => None,
    }
}

/// Relies on `dirs::home_dir`: the user's home directory, when one is known.
/// It depends on the environment, so nothing is promised of it.
#[verifier::external_body]
fn home_dir() -> (r: Option<String>) {
    match dirs::home_dir() {
        Some(p) => Some(p.to_string_lossy().into_owned()),
        None => None,
    }
}

/// Where templates are kept, given the configuration directory if known.
pub open spec fn default_templates_dir(config: Option<Seq<char>>) -> Seq<char> {
    match config {
        Some(d) => d + "/automation-toolkit/templates"@,
        None => "./automation-templates"@,
    }
}

/// The templates directory below a configuration directory, or below the
/// working directory when there is none.
pub fn templates_dir_under(config: Option<String>) -> (r: String)
    ensures
        r@ == default_templates_dir(
            match config {
                Some(d) => Some(d@),
                None => None,
            },
        ),
{
    match config {
        Some(d) => d.concat("/automation-toolkit/templates"),
        None => String::from_str("./automation-templates"),
    }
}

/// A path as shown to the user: below the home directory it starts with `~/`.
pub open spec fn display_path(path: Seq<char>, home: Option<Seq<char>>) -> Seq<char> {
    match home {
        Some(h) => if path == h {
            "~/"@
        } else if has_prefix(path, h + "/"@) {
            "~/"@ + path.subrange(h.len() + 1int, path.len() as int)
        } else {
            path
        },
        None => path,
    }
}

/// Shortens `path` against the home directory, if one is given.
pub fn display_relative_to_home(path: &str, home: Option<String>) -> (r: String)
    ensures
        r@ == display_path(
            path@,
            match home {
                Some(h) => Some(h@),
                None => None,
            },
        ),
{
    proof {
        reveal_strlit("/");
        reveal_strlit("~/");
    }
    match home {
        Some(h) => {
            if crate::text::same_text(path, h.as_str()) {
                return String::from_str("~/");
            }
            let prefix = h.concat("/");
            if starts_with(path, prefix.as_str()) {
                let rest = path.substring_char(prefix.unicode_len(), path.unicode_len());
                String::from_str("~/").concat(rest)
            } else {
                String::from_str(path)
            }
        },
        None => String::from_str(path),
    }
}

/// Application configuration.
#[derive(Debug, Clone)]
pub struct AppConfig {
    /// Directory where templates are stored
    pub templates_directory: String,
    /// Whether to show logs at startup
    pub show_logs_on_startup: bool,
    /// Directory chosen by the user in place of the default
    pub custom_templates_dir: Option<String>,
}

impl AppConfig {
    /// The default configuration: templates under the platform's
    /// configuration directory.
    pub fn default() -> (r: AppConfig)
        ensures
            r.templates_directory@.len() > 0,
            r.show_logs_on_startup,
            r.custom_templates_dir is None,
    {
        proof {
            reveal_strlit("/automation-toolkit/templates");
            reveal_strlit("./automation-templates");
        }
        let dir = templates_dir_under(config_dir());
        AppConfig { templates_directory: dir, show_logs_on_startup: true, custom_templates_dir: None }
    }

    /// The templates directory, the user's choice first.
    pub fn get_templates_directory(&self) -> (r: &String)
        ensures
            *r == match self.custom_templates_dir {
                Some(d) => d,
                None => self.templates_directory,
            },
    {
        match &self.custom_templates_dir {
            Some(d) => d,
            None => &self.templates_directory,
        }
    }

    /// Chooses a templates directory in place of the default.
    pub fn set_custom_templates_directory(&mut self, path: String)
        ensures
            *final(self) == (AppConfig { custom_templates_dir: Some(path), ..*old(self) }),
    {
        self.custom_templates_dir = Some(path);
    }

    /// Goes back to the default templates directory.
    pub fn reset_templates_directory(&mut self) -> (r: Result<(), String>)
        ensures
            r is Ok,
            *final(self) == (AppConfig { custom_templates_dir: None, ..*old(self) }),
    {
        self.custom_templates_dir = None;
        Ok(())
    }

    /// The templates directory as shown to the user.
    pub fn get_templates_directory_display(&self) -> (r: String)
        ensures
            exists|h: Option<Seq<char>>| r@ == display_path(self.get_templates_directory_spec()@, h),
    {
        let home = home_dir();
        let ghost h = match &home {
            Some(d) => Some(d@),
            None => None,
        };
        let r = display_relative_to_home(self.get_templates_directory().as_str(), home);
        assert(r@ == display_path(self.get_templates_directory_spec()@, h));
        r
    }

    pub open spec fn get_templates_directory_spec(&self) -> String {
        match self.custom_templates_dir {
            Some(d) => d,
            None => self.templates_directory,
        }
    }
}

/// Characters that cannot stand in a file name on common systems.
pub open spec fn is_unsafe_file_char(c: char) -> bool {
    c == '/' || c == '\\' || c == ':' || c == '*' || c == '?' || c == '"' || c == '<' || c == '>'
        || c == '|'
}

/// A name with every unsafe character replaced by `_`.
pub open spec fn sanitized(s: Seq<char>) -> Seq<char> {
    s.map_values(|c: char| if is_unsafe_file_char(c) { '_' } else { c })
}

/// Replaces the characters a file name cannot hold with `_`.
pub fn sanitize_filename(name: &str) -> (r: String)
    ensures
        r@ == sanitized(name@),
{
    let n = name.unicode_len();
    let mut out = String::new();
    let mut i: usize = 0;
    proof {
        reveal_strlit("_");
    }
    while i < n
        invariant
            n == name@.len(),
            i <= n,
            out@ == sanitized(name@.subrange(0, i as int)),
        decreases n - i,
    {
        let c = name.get_char(i);
        let ghost before = out@;
        if c == '/' || c == '\\' || c == ':' || c == '*' || c == '?' || c == '"' || c == '<' || c
            == '>' || c == '|' {
            proof {
                reveal_strlit("_");
            }
            out.append("_");
            assert(out@ =~= before.push('_'));
        } else {
            let one = name.substring_char(i, i + 1);
            out.append(one);
            assert(one@ =~= seq![c]);
            assert(out@ =~= before.push(c));
        }
        assert(name@.subrange(0, i + 1) =~= name@.subrange(0, i as int).push(c));
        assert(out@ =~= sanitized(name@.subrange(0, i + 1)));
        i = i + 1;
    }
    assert(name@.subrange(0, n as int) =~= name@);
    out
}

/// The file a template named `name` is stored in.
pub fn template_file_name(name: &str) -> (r: String)
    ensures
        r@ == sanitized(name@) + ".json"@,
{
    sanitize_filename(name).concat(".json")
}

} // verus!
