//! The persisted declarative configuration: which engine variant to run,
//! which list group is active, and where the strategy texts live.
//!
//! A stored configuration may omit any field; loading still succeeds and the
//! missing fields take their zero value. `from_parts` is that defaulting
//! step: the I/O layer hands it one `Option` per stored field.

use vstd::prelude::*;

verus! {

/// Which list group scopes the diverted traffic.
#[derive(Clone, Copy, Debug, PartialEq, Eq, Structural)]
pub enum ListType {
    /// Divert only traffic matching the non-excluded lists.
    Whitelist,
    /// Divert everything except traffic matching the exclude lists.
    Blacklist,
}

impl Default for ListType {
    fn default() -> (r: Self)
        ensures
            r == ListType::Whitelist,
    {
        ListType::Whitelist
    }
}

/// Which of the two independently linked packet engines to invoke.
#[derive(Clone, Copy, Debug, PartialEq, Eq, Structural)]
pub enum EngineVariant {
    Primary,
    Secondary,
}

impl Default for EngineVariant {
    fn default() -> (r: Self)
        ensures
            r == EngineVariant::Primary,
    {
        EngineVariant::Primary
    }
}

/// The declarative configuration, one instance per install.
///
/// The orchestrator only reads it; mutation is an external collaborator's
/// responsibility.
pub struct Config {
    pub active_lists: Vec<String>,
    pub active_ipsets: Vec<String>,
    pub active_exclude_lists: Vec<String>,
    pub active_exclude_ipsets: Vec<String>,
    pub list_type: ListType,
    pub engine_variant: EngineVariant,
    pub strategy: String,
    pub strategy_secondary: String,
    pub app_list: String,
    pub whitelist: Vec<String>,
    pub blacklist: Vec<String>,
}

impl Default for Config {
    fn default() -> (r: Self)
        ensures
            r.active_lists@ == Seq::<String>::empty(),
            r.active_ipsets@ == Seq::<String>::empty(),
            r.active_exclude_lists@ == Seq::<String>::empty(),
            r.active_exclude_ipsets@ == Seq::<String>::empty(),
            r.list_type == ListType::Whitelist,
            r.engine_variant == EngineVariant::Primary,
            r.strategy@ == Seq::<char>::empty(),
            r.strategy_secondary@ == Seq::<char>::empty(),
            r.app_list@ == Seq::<char>::empty(),
            r.whitelist@ == Seq::<String>::empty(),
            r.blacklist@ == Seq::<String>::empty(),
    {
        Config {
            active_lists: Vec::new(),
            active_ipsets: Vec::new(),
            active_exclude_lists: Vec::new(),
            active_exclude_ipsets: Vec::new(),
            list_type: ListType::Whitelist,
            engine_variant: EngineVariant::Primary,
            strategy: String::new(),
            strategy_secondary: String::new(),
            app_list: String::new(),
            whitelist: Vec::new(),
            blacklist: Vec::new(),
        }
    }
}

impl Config {
    /// Builds a configuration from the fields actually present in storage.
    ///
    /// Every absent (`None`) field takes its zero value, so loading never
    /// fails on account of a missing optional field alone.
    #[allow(clippy::too_many_arguments)]
    pub fn from_parts(
        active_lists: Option<Vec<String>>,
        active_ipsets: Option<Vec<String>>,
        active_exclude_lists: Option<Vec<String>>,
        active_exclude_ipsets: Option<Vec<String>>,
        list_type: Option<ListType>,
        engine_variant: Option<EngineVariant>,
        strategy: Option<String>,
        strategy_secondary: Option<String>,
        app_list: Option<String>,
        whitelist: Option<Vec<String>>,
        blacklist: Option<Vec<String>>,
    ) -> (r: Config)
        ensures
            r.active_lists@ == (match active_lists {
                Some(v) => v@,
                None => Seq::<String>::empty(),
            }),
            r.active_ipsets@ == (match active_ipsets {
                Some(v) => v@,
                None => Seq::<String>::empty(),
            }),
            r.active_exclude_lists@ == (match active_exclude_lists {
                Some(v) => v@,
                None => Seq::<String>::empty(),
            }),
            r.active_exclude_ipsets@ == (match active_exclude_ipsets {
                Some(v) => v@,
                None => Seq::<String>::empty(),
            }),
            r.list_type == (match list_type {
                Some(t) => t,
                None => ListType::Whitelist,
            }),
            r.engine_variant == (match engine_variant {
                Some(v) => v,
                None => EngineVariant::Primary,
            }),
            r.strategy@ == (match strategy {
                Some(s) => s@,
                None => Seq::<char>::empty(),
            }),
            r.strategy_secondary@ == (match strategy_secondary {
                Some(s) => s@,
                None => Seq::<char>::empty(),
            }),
            r.app_list@ == (match app_list {
                Some(s) => s@,
                None => Seq::<char>::empty(),
            }),
            r.whitelist@ == (match whitelist {
                Some(v) => v@,
                None => Seq::<String>::empty(),
            }),
            r.blacklist@ == (match blacklist {
                Some(v) => v@,
                None => Seq::<String>::empty(),
            }),
    {
        Config {
            active_lists: match active_lists {
                Some(v) => v,
                None => Vec::new(),
            },
            active_ipsets: match active_ipsets {
                Some(v) => v,
                None => Vec::new(),
            },
            active_exclude_lists: match active_exclude_lists {
                Some(v) => v,
                None => Vec::new(),
            },
            active_exclude_ipsets: match active_exclude_ipsets {
                Some(v) => v,
                None => Vec::new(),
            },
            list_type: match list_type {
                Some(t) => t,
                None => ListType::Whitelist,
            },
            engine_variant: match engine_variant {
                Some(v) => v,
                None => EngineVariant::Primary,
            },
            strategy: match strategy {
                Some(s) => s,
                None => String::new(),
            },
            strategy_secondary: match strategy_secondary {
                Some(s) => s,
                None => String::new(),
            },
            app_list: match app_list {
                Some(s) => s,
                None => String::new(),
            },
            whitelist: match whitelist {
                Some(v) => v,
                None => Vec::new(),
            },
            blacklist: match blacklist {
                Some(v) => v,
                None => Vec::new(),
            },
        }
    }

    /// The ordered list files of the active (non-exclude) host-list group.
    pub fn active_lists(&self) -> (r: &Vec<String>)
        ensures
            r == &self.active_lists,
    {
        &self.active_lists
    }

    /// The ordered ipset files of the active (non-exclude) group.
    pub fn active_ipsets(&self) -> (r: &Vec<String>)
        ensures
            r == &self.active_ipsets,
    {
        &self.active_ipsets
    }

    /// The ordered list files of the exclude host-list group.
    pub fn active_exclude_lists(&self) -> (r: &Vec<String>)
        ensures
            r == &self.active_exclude_lists,
    {
        &self.active_exclude_lists
    }

    /// The ordered ipset files of the exclude group.
    pub fn active_exclude_ipsets(&self) -> (r: &Vec<String>)
        ensures
            r == &self.active_exclude_ipsets,
    {
        &self.active_exclude_ipsets
    }

    /// The active list mode.
    pub fn list_type(&self) -> (r: ListType)
        ensures
            r == self.list_type,
    {
        self.list_type
    }

    /// The engine variant this install runs.
    pub fn engine_variant(&self) -> (r: EngineVariant)
        ensures
            r == self.engine_variant,
    {
        self.engine_variant
    }

    /// Path of the user-supplied strategy text for the primary engine.
    pub fn strategy(&self) -> (r: &String)
        ensures
            r == &self.strategy,
    {
        &self.strategy
    }

    /// Path of the user-supplied strategy text for the secondary engine.
    pub fn strategy_secondary(&self) -> (r: &String)
        ensures
            r == &self.strategy_secondary,
    {
        &self.strategy_secondary
    }

    /// The strategy path this install's engine variant reads.
    pub fn strategy_path(&self) -> (r: &String)
        ensures
            r == (match self.engine_variant {
                EngineVariant::Primary => &self.strategy,
                EngineVariant::Secondary => &self.strategy_secondary,
            }),
    {
        match self.engine_variant {
            EngineVariant::Primary => &self.strategy,
            EngineVariant::Secondary => &self.strategy_secondary,
        }
    }

    /// The per-application list mode, consumed by an external collaborator.
    pub fn app_list(&self) -> (r: &String)
        ensures
            r == &self.app_list,
    {
        &self.app_list
    }

    /// Package-name entries, consumed by an external collaborator.
    pub fn whitelist(&self) -> (r: &Vec<String>)
        ensures
            r == &self.whitelist,
    {
        &self.whitelist
    }

    /// Package-name entries, consumed by an external collaborator.
    pub fn blacklist(&self) -> (r: &Vec<String>)
        ensures
            r == &self.blacklist,
    {
        &self.blacklist
    }
}

} // verus!
