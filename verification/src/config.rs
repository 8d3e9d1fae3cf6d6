//! Namespacing of the tool names that the MCP server publishes.
use vstd::prelude::*;
use crate::text::{join2, lowercase_of, owned, str_eq, to_lowercase};

verus! {

/// How the published tool names are prefixed.
pub struct ToolConfig {
    pub prefix: String,
    pub namespace_enabled: bool,
}

/// The prefix used when none is configured.
pub open spec fn default_prefix() -> Seq<char> {
    "dockmaster_"@
}

/// Whether the value of the namespace-mode setting leaves namespacing on:
/// it is off exactly when the setting, lowercased, reads `disabled`.
pub open spec fn namespace_mode_enabled(mode: Option<Seq<char>>) -> bool {
    match mode {
        Some(m) => lowercase_of(m) != "disabled"@,
        None => true,
    }
}

/// The text of an optional string slice.
pub open spec fn opt_view(s: Option<&str>) -> Option<Seq<char>> {
    match s { Some(x) => Some(x@), None => None }
}

impl Default for ToolConfig {
    /// Namespacing on, with the default prefix.
    fn default() -> (r: ToolConfig)
        ensures
            r.prefix@ == default_prefix(),
            r.namespace_enabled,
    {
        proof { reveal_strlit("dockmaster_"); }
        ToolConfig { prefix: owned("dockmaster_"), namespace_enabled: true }
    }
}

impl ToolConfig {
    /// The configuration that the two settings describe: `mode` is the value
    /// of `DOCKMASTER_NAMESPACE_MODE` and `prefix` that of
    /// `DOCKMASTER_TOOL_PREFIX`, each `None` when unset.
    pub fn from_env_values(mode: Option<&str>, prefix: Option<&str>) -> (r: ToolConfig)
        ensures
            r.namespace_enabled == namespace_mode_enabled(opt_view(mode)),
            r.prefix@ == selected_prefix(opt_view(mode), opt_view(prefix)),
    {
        proof {
            reveal_strlit("dockmaster_");
            reveal_strlit("disabled");
        }
        let namespace_enabled = match mode {
            Some(m) => {
                let lower = to_lowercase(m);
                !str_eq(lower.as_str(), "disabled")
            }
            None => true,
        };
        let prefix = if namespace_enabled {
            match prefix {
                Some(p) => owned(p),
                None => owned("dockmaster_"),
            }
        } else {
            String::new()
        };
        ToolConfig { prefix, namespace_enabled }
    }

    /// The published name of the tool `base_name`: the prefix and the name
    /// when namespacing is on, the bare name otherwise.
    pub fn tool_name(&self, base_name: &str) -> (r: String)
        ensures
            r@ == published_name(self.prefix@, self.namespace_enabled, base_name@),
    {
        if self.namespace_enabled {
            join2(self.prefix.as_str(), base_name)
        } else {
            owned(base_name)
        }
    }

    pub fn is_namespace_enabled(&self) -> (r: bool)
        ensures
            r == self.namespace_enabled,
    {
        self.namespace_enabled
    }
}

/// The published name of `base` under prefix `prefix`, namespacing on or off.
pub open spec fn published_name(prefix: Seq<char>, enabled: bool, base: Seq<char>) -> Seq<char> {
    if enabled { prefix + base } else { base }
}

/// The prefix that the settings select (empty when namespacing is off).
pub open spec fn selected_prefix(mode: Option<Seq<char>>, prefix: Option<Seq<char>>) -> Seq<char> {
    if namespace_mode_enabled(mode) {
        match prefix { Some(p) => p, None => default_prefix() }
    } else {
        Seq::empty()
    }
}

/// Tools keep their bare names whenever the namespace mode is set to
/// `disabled` (in any letter case), whatever prefix is configured.
pub proof fn law_disabled_mode_gives_bare_names(m: Seq<char>, prefix: Option<Seq<char>>, base: Seq<char>)
    requires
        lowercase_of(m) == "disabled"@,
    ensures
        published_name(selected_prefix(Some(m), prefix), namespace_mode_enabled(Some(m)), base) == base,
{
}

/// With namespacing left on, a configured prefix is put before every name,
/// and without one the default prefix is.
pub proof fn law_enabled_mode_prefixes_names(prefix: Option<Seq<char>>, base: Seq<char>)
    ensures
        published_name(selected_prefix(None, prefix), namespace_mode_enabled(None), base)
            == (match prefix { Some(p) => p, None => default_prefix() }) + base,
{
}

} // verus!
