//! Connection options and the resolution of a capability configuration into
//! the policy that the engine consults when it admits a request.
use vstd::prelude::*;
use crate::value::text_eq;

verus! {

/// A set of target names (functions, network targets, experimental features).
#[derive(Debug, Clone)]
pub enum TargetSet {
    /// Every name.
    All,
    /// No name.
    Nothing,
    /// Exactly the names listed.
    Only(Vec<String>),
}

/// Whether `name` is one of `names`.
pub open spec fn listed(names: Seq<String>, name: Seq<char>) -> bool {
    exists|i: int| 0 <= i < names.len() && (#[trigger] names[i])@ == name
}

impl TargetSet {
    /// Whether the set holds `name`.
    pub open spec fn admits(&self, name: Seq<char>) -> bool {
        match self {
            TargetSet::All => true,
            TargetSet::Nothing => false,
            TargetSet::Only(v) => listed(v@, name),
        }
    }

    /// Whether the set holds `name`.
    pub fn contains(&self, name: &str) -> (r: bool)
        ensures
            r == self.admits(name@),
    {
        match self {
            TargetSet::All => true,
            TargetSet::Nothing => false,
            TargetSet::Only(v) => {
                let mut i: usize = 0;
                while i < v.len()
                    invariant
                        i <= v@.len(),
                        self.admits(name@) == listed(v@, name@),
                        forall|j: int| 0 <= j < i ==> (#[trigger] v@[j])@ != name@,
                    decreases v@.len() - i,
                {
                    if text_eq(v[i].as_str(), name) {
                        proof {
                            assert((v@[i as int])@ == name@);
                        }
                        return true;
                    }
                    i = i + 1;
                }
                false
            },
        }
    }
}

/// The policy of one category: what is allowed, and what is denied on top of it.
#[derive(Debug, Clone)]
pub struct TargetPolicy {
    pub allow: TargetSet,
    pub deny: TargetSet,
}

impl TargetPolicy {
    /// A name is permitted when it is allowed and not denied: deny wins.
    pub open spec fn permits(&self, name: Seq<char>) -> bool {
        self.allow.admits(name) && !self.deny.admits(name)
    }

    /// Whether `name` is permitted.
    pub fn allows(&self, name: &str) -> (r: bool)
        ensures
            r == self.permits(name@),
    {
        self.allow.contains(name) && !self.deny.contains(name)
    }
}

/// The categories of targets that a configuration names.
#[derive(Debug, Clone, Copy, PartialEq, Eq, Structural)]
pub enum Category {
    Functions,
    NetworkTargets,
    Experimental,
}

/// The resolved capability policy of a connection.
#[derive(Debug, Clone)]
pub struct Capabilities {
    pub scripting: bool,
    pub guest_access: bool,
    pub live_query_notifications: bool,
    pub functions: TargetPolicy,
    pub network_targets: TargetPolicy,
    pub experimental: TargetPolicy,
    pub arbitrary_query: TargetPolicy,
}

/// One side (allow or deny) of a category given as an allow/deny pair.
#[derive(Debug, Clone)]
pub enum TargetsConfig {
    Bool(bool),
    Array(Vec<String>),
}

/// The configuration of one category.
#[derive(Debug, Clone)]
pub enum Targets {
    /// `true` allows every name, `false` none; the deny side keeps its default.
    Bool(bool),
    /// Allows exactly these names; the deny side keeps its default.
    Array(Vec<String>),
    /// Each side, where given, replaces that side of the default.
    Config { allow: Option<TargetsConfig>, deny: Option<TargetsConfig> },
}

/// The capability part of the connection options.
#[derive(Debug, Clone)]
pub enum CapabilitiesConfig {
    /// `true` allows everything; `false` keeps the defaults but allows no function.
    Bool(bool),
    /// Each category, where given, overrides its default.
    Capabilities {
        scripting: Option<bool>,
        guest_access: Option<bool>,
        live_query_notifications: Option<bool>,
        functions: Option<Targets>,
        network_targets: Option<Targets>,
        experimental: Option<Targets>,
    },
}

/// Options given when a connection is made.
#[derive(Debug, Clone)]
pub struct Options {
    pub strict: Option<bool>,
    pub query_timeout: Option<u8>,
    pub transaction_timeout: Option<u8>,
    pub capabilities: Option<CapabilitiesConfig>,
}

/// Why a capability configuration could not be resolved.
#[derive(Debug, Clone)]
pub enum CapabilityError {
    /// A name in the given category is not a well-formed target name.
    InvalidTarget { category: Category, name: String },
}

/// This library's own syntactic check of a target name, made before the
/// engine sees the policy: a non-empty run of printable ASCII characters
/// other than space. The engine parses each category's names further and
/// may still refuse a name that passes here.
pub open spec fn valid_target_name(s: Seq<char>) -> bool {
    s.len() > 0 && forall|i: int| 0 <= i < s.len() ==> '!' <= #[trigger] s[i] <= '~'
}

/// Whether every name of the list is well formed.
pub open spec fn all_valid(names: Seq<String>) -> bool {
    forall|i: int| 0 <= i < names.len() ==> valid_target_name(#[trigger] names[i]@)
}

/// Checks one target name.
pub fn is_valid_target_name(s: &str) -> (r: bool)
    ensures
        r == valid_target_name(s@),
{
    let n = s.unicode_len();
    if n == 0 {
        return false;
    }
    let mut i: usize = 0;
    while i < n
        invariant
            n == s@.len(),
            i <= n,
            forall|j: int| 0 <= j < i ==> '!' <= #[trigger] s@[j] <= '~',
        decreases n - i,
    {
        let c = s.get_char(i);
        if c < '!' || c > '~' {
            return false;
        }
        i = i + 1;
    }
    true
}

/// Finds the first malformed name of a list, if any.
fn first_invalid(names: &Vec<String>) -> (r: Option<usize>)
    ensures
        r.is_none() <==> all_valid(names@),
        r matches Some(i) ==> i < names@.len() && !valid_target_name(names@[i as int]@),
{
    let mut i: usize = 0;
    while i < names.len()
        invariant
            i <= names@.len(),
            forall|j: int| 0 <= j < i ==> valid_target_name(#[trigger] names@[j]@),
        decreases names@.len() - i,
    {
        if !is_valid_target_name(names[i].as_str()) {
            return Some(i);
        }
        i = i + 1;
    }
    None
}

/// The set that one side of an allow/deny pair stands for.
pub open spec fn side_set(c: TargetsConfig) -> TargetSet {
    match c {
        TargetsConfig::Bool(true) => TargetSet::All,
        TargetsConfig::Bool(false) => TargetSet::Nothing,
        TargetsConfig::Array(v) => TargetSet::Only(v),
    }
}

/// Whether one side of an allow/deny pair names only well-formed targets.
pub open spec fn side_valid(c: TargetsConfig) -> bool {
    match c {
        TargetsConfig::Array(v) => all_valid(v@),
        _ => true,
    }
}

/// The policy of a category after its configuration is applied to `base`.
pub open spec fn targets_policy(base: TargetPolicy, t: Targets) -> TargetPolicy {
    match t {
        Targets::Bool(b) => TargetPolicy {
            allow: if b { TargetSet::All } else { TargetSet::Nothing },
            deny: base.deny,
        },
        Targets::Array(v) => TargetPolicy { allow: TargetSet::Only(v), deny: base.deny },
        Targets::Config { allow, deny } => TargetPolicy {
            allow: match allow {
                Some(c) => side_set(c),
                None => base.allow,
            },
            deny: match deny {
                Some(c) => side_set(c),
                None => base.deny,
            },
        },
    }
}

/// Whether a category's configuration names only well-formed targets.
pub open spec fn targets_valid(t: Targets) -> bool {
    match t {
        Targets::Bool(_) => true,
        Targets::Array(v) => all_valid(v@),
        Targets::Config { allow, deny } => (allow matches Some(c) ==> side_valid(c)) && (
        deny matches Some(c) ==> side_valid(c)),
    }
}

/// Whether `name` is a malformed name that a category's configuration lists.
pub open spec fn lists_invalid(t: Targets, name: Seq<char>) -> bool {
    !valid_target_name(name) && match t {
        Targets::Bool(_) => false,
        Targets::Array(v) => listed(v@, name),
        Targets::Config { allow, deny } => (allow matches Some(TargetsConfig::Array(v)) && listed(
            v@,
            name,
        )) || (deny matches Some(TargetsConfig::Array(v)) && listed(v@, name)),
    }
}

fn side_to_set(c: TargetsConfig, category: Category) -> (r: Result<TargetSet, CapabilityError>)
    ensures
        side_valid(c) ==> (r matches Ok(s) && s == side_set(c)),
        !side_valid(c) ==> (r matches Err(CapabilityError::InvalidTarget { category: k, name })
            && k == category && !valid_target_name(name@) && (c matches TargetsConfig::Array(v)
            && listed(v@, name@))),
{
    match c {
        TargetsConfig::Bool(true) => Ok(TargetSet::All),
        TargetsConfig::Bool(false) => Ok(TargetSet::Nothing),
        TargetsConfig::Array(v) => match first_invalid(&v) {
            None => Ok(TargetSet::Only(v)),
            Some(i) => {
                let name = v[i].clone();
                Err(CapabilityError::InvalidTarget { category, name })
            },
        },
    }
}

/// Applies the configuration of one category to its default policy.
pub fn resolve_targets(base: TargetPolicy, t: Targets, category: Category) -> (r: Result<
    TargetPolicy,
    CapabilityError,
>)
    ensures
        targets_valid(t) ==> (r matches Ok(p) && p == targets_policy(base, t)),
        !targets_valid(t) ==> (r matches Err(CapabilityError::InvalidTarget { category: k, name })
            && k == category && lists_invalid(t, name@)),
{
    match t {
        Targets::Bool(true) => Ok(TargetPolicy { allow: TargetSet::All, deny: base.deny }),
        Targets::Bool(false) => Ok(TargetPolicy { allow: TargetSet::Nothing, deny: base.deny }),
        Targets::Array(v) => match first_invalid(&v) {
            None => Ok(TargetPolicy { allow: TargetSet::Only(v), deny: base.deny }),
            Some(i) => {
                let name = v[i].clone();
                Err(CapabilityError::InvalidTarget { category, name })
            },
        },
        Targets::Config { allow, deny } => {
            let allow_set = match allow {
                Some(c) => match side_to_set(c, category) {
                    Ok(s) => s,
                    Err(e) => {
                        return Err(e);
                    },
                },
                None => base.allow,
            };
            let deny_set = match deny {
                Some(c) => match side_to_set(c, category) {
                    Ok(s) => s,
                    Err(e) => {
                        return Err(e);
                    },
                },
                None => base.deny,
            };
            Ok(TargetPolicy { allow: allow_set, deny: deny_set })
        },
    }
}

/// The policy that is allowed everything and denied nothing.
pub open spec fn open_policy() -> TargetPolicy {
    TargetPolicy { allow: TargetSet::All, deny: TargetSet::Nothing }
}

/// The policy that is allowed nothing and denied nothing.
pub open spec fn closed_policy() -> TargetPolicy {
    TargetPolicy { allow: TargetSet::Nothing, deny: TargetSet::Nothing }
}

/// The defaults: no scripting, no guest access, live-query notifications on,
/// every function, no network target, no experimental feature, arbitrary queries.
pub open spec fn default_capabilities() -> Capabilities {
    Capabilities {
        scripting: false,
        guest_access: false,
        live_query_notifications: true,
        functions: open_policy(),
        network_targets: closed_policy(),
        experimental: closed_policy(),
        arbitrary_query: open_policy(),
    }
}

/// Everything allowed, nothing denied.
pub open spec fn all_capabilities() -> Capabilities {
    Capabilities {
        scripting: true,
        guest_access: true,
        live_query_notifications: true,
        functions: open_policy(),
        network_targets: open_policy(),
        experimental: open_policy(),
        arbitrary_query: open_policy(),
    }
}

/// Whether every category of a configuration names only well-formed targets.
pub open spec fn config_valid(config: CapabilitiesConfig) -> bool {
    match config {
        CapabilitiesConfig::Bool(_) => true,
        CapabilitiesConfig::Capabilities { functions, network_targets, experimental, .. } => (
        functions matches Some(t) ==> targets_valid(t)) && (network_targets matches Some(t)
            ==> targets_valid(t)) && (experimental matches Some(t) ==> targets_valid(t)),
    }
}

/// Whether `name` is a malformed name that `config` lists under `category`.
pub open spec fn config_lists_invalid(
    config: CapabilitiesConfig,
    category: Category,
    name: Seq<char>,
) -> bool {
    match config {
        CapabilitiesConfig::Bool(_) => false,
        CapabilitiesConfig::Capabilities { functions, network_targets, experimental, .. } => {
            let t = match category {
                Category::Functions => functions,
                Category::NetworkTargets => network_targets,
                Category::Experimental => experimental,
            };
            t matches Some(t) && lists_invalid(t, name)
        },
    }
}

/// Applies an optional category configuration to a policy.
pub open spec fn maybe_targets(base: TargetPolicy, t: Option<Targets>) -> TargetPolicy {
    match t {
        Some(t) => targets_policy(base, t),
        None => base,
    }
}

/// The policy that generic resolution yields for a valid configuration.
pub open spec fn generic_policy(config: CapabilitiesConfig) -> Capabilities {
    let d = default_capabilities();
    match config {
        CapabilitiesConfig::Bool(true) => all_capabilities(),
        CapabilitiesConfig::Bool(false) => Capabilities { functions: closed_policy(), ..d },
        CapabilitiesConfig::Capabilities {
            scripting,
            guest_access,
            live_query_notifications,
            functions,
            network_targets,
            experimental,
        } => Capabilities {
            scripting: match scripting {
                Some(b) => b,
                None => d.scripting,
            },
            guest_access: match guest_access {
                Some(b) => b,
                None => d.guest_access,
            },
            live_query_notifications: match live_query_notifications {
                Some(b) => b,
                None => d.live_query_notifications,
            },
            functions: maybe_targets(d.functions, functions),
            network_targets: maybe_targets(d.network_targets, network_targets),
            experimental: maybe_targets(d.experimental, experimental),
            arbitrary_query: d.arbitrary_query,
        },
    }
}

/// The resolved policy: generic resolution, then arbitrary queries forced open.
pub open spec fn resolved(config: CapabilitiesConfig) -> Capabilities {
    Capabilities { arbitrary_query: open_policy(), ..generic_policy(config) }
}

fn open_targets() -> (r: TargetPolicy)
    ensures
        r == open_policy(),
{
    TargetPolicy { allow: TargetSet::All, deny: TargetSet::Nothing }
}

fn closed_targets() -> (r: TargetPolicy)
    ensures
        r == closed_policy(),
{
    TargetPolicy { allow: TargetSet::Nothing, deny: TargetSet::Nothing }
}

fn resolve_optional(base: TargetPolicy, t: Option<Targets>, category: Category) -> (r: Result<
    TargetPolicy,
    CapabilityError,
>)
    ensures
        (t matches Some(t) ==> targets_valid(t)) ==> (r matches Ok(p) && p == maybe_targets(
            base,
            t,
        )),
        !(t matches Some(t) ==> targets_valid(t)) ==> (r matches Err(
            CapabilityError::InvalidTarget { category: k, name },
        ) && k == category && (t matches Some(t) && lists_invalid(t, name@))),
{
    match t {
        Some(t) => resolve_targets(base, t, category),
        None => Ok(base),
    }
}

impl Default for Capabilities {
    fn default() -> (r: Capabilities)
        ensures
            r == default_capabilities(),
    {
        Capabilities {
            scripting: false,
            guest_access: false,
            live_query_notifications: true,
            functions: open_targets(),
            network_targets: closed_targets(),
            experimental: closed_targets(),
            arbitrary_query: open_targets(),
        }
    }
}

impl Capabilities {
    /// Everything allowed, nothing denied.
    pub fn all() -> (r: Capabilities)
        ensures
            r == all_capabilities(),
    {
        Capabilities {
            scripting: true,
            guest_access: true,
            live_query_notifications: true,
            functions: open_targets(),
            network_targets: open_targets(),
            experimental: open_targets(),
            arbitrary_query: open_targets(),
        }
    }

    /// Resolves a capability configuration: each category starts from its
    /// default and is overridden where the configuration gives it; arbitrary
    /// queries are then always allowed. A malformed target name fails the
    /// whole resolution and is reported with its category.
    pub fn resolve(config: CapabilitiesConfig) -> (r: Result<Capabilities, CapabilityError>)
        ensures
            config_valid(config) ==> (r matches Ok(c) && c == resolved(config)),
            !config_valid(config) ==> (r matches Err(
                CapabilityError::InvalidTarget { category, name },
            ) && config_lists_invalid(config, category, name@)),
    {
        let caps = match config {
            CapabilitiesConfig::Bool(true) => Capabilities::all(),
            CapabilitiesConfig::Bool(false) => {
                let d = Capabilities::default();
                Capabilities { functions: closed_targets(), ..d }
            },
            CapabilitiesConfig::Capabilities {
                scripting,
                guest_access,
                live_query_notifications,
                functions,
                network_targets,
                experimental,
            } => {
                let d = Capabilities::default();
                let functions = match resolve_optional(d.functions, functions, Category::Functions) {
                    Ok(p) => p,
                    Err(e) => {
                        return Err(e);
                    },
                };
                let network_targets = match resolve_optional(
                    d.network_targets,
                    network_targets,
                    Category::NetworkTargets,
                ) {
                    Ok(p) => p,
                    Err(e) => {
                        return Err(e);
                    },
                };
                let experimental = match resolve_optional(
                    d.experimental,
                    experimental,
                    Category::Experimental,
                ) {
                    Ok(p) => p,
                    Err(e) => {
                        return Err(e);
                    },
                };
                Capabilities {
                    scripting: match scripting {
                        Some(b) => b,
                        None => d.scripting,
                    },
                    guest_access: match guest_access {
                        Some(b) => b,
                        None => d.guest_access,
                    },
                    live_query_notifications: match live_query_notifications {
                        Some(b) => b,
                        None => d.live_query_notifications,
                    },
                    functions,
                    network_targets,
                    experimental,
                    arbitrary_query: d.arbitrary_query,
                }
            },
        };
        Ok(Capabilities { arbitrary_query: open_targets(), ..caps })
    }
}

/// A category given both an allow and a deny side permits exactly the names
/// that the allow side holds and the deny side does not, whatever its
/// default: deny wins, and denying everything permits nothing even where
/// everything is allowed.
pub proof fn lemma_allow_deny_pair(
    base: TargetPolicy,
    allow: TargetsConfig,
    deny: TargetsConfig,
    name: Seq<char>,
)
    ensures
        targets_policy(base, Targets::Config { allow: Some(allow), deny: Some(deny) }).permits(name)
            == (side_set(allow).admits(name) && !side_set(deny).admits(name)),
        deny matches TargetsConfig::Bool(true) ==> !targets_policy(
            base,
            Targets::Config { allow: Some(allow), deny: Some(deny) },
        ).permits(name),
{
}

/// Resolution is the same for every category: the functions, network
/// targets and experimental features of a valid configuration resolve by
/// applying that category's configuration to its default, and a name that a
/// resolved category denies is never permitted.
pub proof fn lemma_resolution_per_category(config: CapabilitiesConfig, name: Seq<char>)
    requires
        config_valid(config),
    ensures
        config matches CapabilitiesConfig::Capabilities { functions, network_targets, experimental, .. } ==> {
            &&& resolved(config).functions == maybe_targets(default_capabilities().functions, functions)
            &&& resolved(config).network_targets == maybe_targets(
                default_capabilities().network_targets,
                network_targets,
            )
            &&& resolved(config).experimental == maybe_targets(
                default_capabilities().experimental,
                experimental,
            )
        },
        resolved(config).functions.deny.admits(name) ==> !resolved(config).functions.permits(name),
        resolved(config).network_targets.deny.admits(name) ==> !resolved(
            config,
        ).network_targets.permits(name),
        resolved(config).experimental.deny.admits(name) ==> !resolved(config).experimental.permits(
            name,
        ),
        resolved(config).arbitrary_query.permits(name),
{
}

} // verus!
