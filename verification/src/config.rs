//! The resolved configuration and the cascade that produces it.

use vstd::prelude::*;

use crate::entry::{
    bench_defaults, bench_defaults_view, clippy_defaults, clippy_defaults_view, custom_defaults,
    custom_defaults_view, empty_partial_entry_view, lemma_merged_command_never_empty,
    lemma_role_default_commands_nonempty, merge_entry, merge_entry_view, partial_command_ok,
    rustfmt_defaults, rustfmt_defaults_view, EntryView, MatrixEntry, PartialEntry,
    PartialEntryView,
};

verus! {

/// The full set of matrix entries (the fixed benchmark, lint and
/// format-check roles plus the user-named custom entries) together
/// with the scalar settings.  Every field has a defined value; the
/// compiled-in defaults fill whatever the source document left out.
#[derive(Debug)]
pub struct TemplateCIConfig {
    pub bench: MatrixEntry,
    pub clippy: MatrixEntry,
    pub rustfmt: MatrixEntry,
    pub additional_matrix_entries: Vec<(String, MatrixEntry)>,
    pub cache: String,
    pub os: String,
    pub dist: String,
    pub versions: Vec<String>,
    pub test_commandline: String,
    pub scheduled_test_branches: Vec<String>,
    pub test_schedule: String,
}

/// A configuration as a source document supplies it: every field may
/// be absent.
#[derive(Debug)]
pub struct PartialConfig {
    pub bench: Option<PartialEntry>,
    pub clippy: Option<PartialEntry>,
    pub rustfmt: Option<PartialEntry>,
    pub additional_matrix_entries: Vec<(String, PartialEntry)>,
    pub cache: Option<String>,
    pub os: Option<String>,
    pub dist: Option<String>,
    pub versions: Option<Vec<String>>,
    pub test_commandline: Option<String>,
    pub scheduled_test_branches: Option<Vec<String>>,
    pub test_schedule: Option<String>,
}

/// The mathematical value of a [`TemplateCIConfig`].
#[verifier::ext_equal]
pub ghost struct ConfigView {
    pub bench: EntryView,
    pub clippy: EntryView,
    pub rustfmt: EntryView,
    pub additional_matrix_entries: Seq<(Seq<char>, EntryView)>,
    pub cache: Seq<char>,
    pub os: Seq<char>,
    pub dist: Seq<char>,
    pub versions: Seq<Seq<char>>,
    pub test_commandline: Seq<char>,
    pub scheduled_test_branches: Seq<Seq<char>>,
    pub test_schedule: Seq<char>,
}

/// The mathematical value of a [`PartialConfig`].
#[verifier::ext_equal]
pub ghost struct PartialConfigView {
    pub bench: Option<PartialEntryView>,
    pub clippy: Option<PartialEntryView>,
    pub rustfmt: Option<PartialEntryView>,
    pub additional_matrix_entries: Seq<(Seq<char>, PartialEntryView)>,
    pub cache: Option<Seq<char>>,
    pub os: Option<Seq<char>>,
    pub dist: Option<Seq<char>>,
    pub versions: Option<Seq<Seq<char>>>,
    pub test_commandline: Option<Seq<char>>,
    pub scheduled_test_branches: Option<Seq<Seq<char>>>,
    pub test_schedule: Option<Seq<char>>,
}

pub open spec fn strings_view(v: Vec<String>) -> Seq<Seq<char>> {
    v@.map_values(|s: String| s@)
}

pub open spec fn opt_strings_view(o: Option<Vec<String>>) -> Option<Seq<Seq<char>>> {
    match o {
        Some(v) => Some(strings_view(v)),
        None => None,
    }
}

pub open spec fn entries_view(v: Vec<(String, MatrixEntry)>) -> Seq<(Seq<char>, EntryView)> {
    v@.map_values(|q: (String, MatrixEntry)| (q.0@, q.1@))
}

pub open spec fn partial_entries_view(
    v: Vec<(String, PartialEntry)>,
) -> Seq<(Seq<char>, PartialEntryView)> {
    v@.map_values(|q: (String, PartialEntry)| (q.0@, q.1@))
}

impl View for TemplateCIConfig {
    type V = ConfigView;

    open spec fn view(&self) -> ConfigView {
        ConfigView {
            bench: self.bench@,
            clippy: self.clippy@,
            rustfmt: self.rustfmt@,
            additional_matrix_entries: entries_view(self.additional_matrix_entries),
            cache: self.cache@,
            os: self.os@,
            dist: self.dist@,
            versions: strings_view(self.versions),
            test_commandline: self.test_commandline@,
            scheduled_test_branches: strings_view(self.scheduled_test_branches),
            test_schedule: self.test_schedule@,
        }
    }
}

impl View for PartialConfig {
    type V = PartialConfigView;

    open spec fn view(&self) -> PartialConfigView {
        PartialConfigView {
            bench: match self.bench {
                Some(p) => Some(p@),
                None => None,
            },
            clippy: match self.clippy {
                Some(p) => Some(p@),
                None => None,
            },
            rustfmt: match self.rustfmt {
                Some(p) => Some(p@),
                None => None,
            },
            additional_matrix_entries: partial_entries_view(self.additional_matrix_entries),
            cache: crate::entry::opt_str_view(self.cache),
            os: crate::entry::opt_str_view(self.os),
            dist: crate::entry::opt_str_view(self.dist),
            versions: opt_strings_view(self.versions),
            test_commandline: crate::entry::opt_str_view(self.test_commandline),
            scheduled_test_branches: opt_strings_view(self.scheduled_test_branches),
            test_schedule: crate::entry::opt_str_view(self.test_schedule),
        }
    }
}

/// The names of the custom entries are pairwise distinct, as the keys
/// of a key-value mapping are.
pub open spec fn config_keys_distinct(c: ConfigView) -> bool {
    forall|i: int, j: int|
        0 <= i < j < c.additional_matrix_entries.len()
            ==> #[trigger] c.additional_matrix_entries[i].0
            != #[trigger] c.additional_matrix_entries[j].0
}

/// Same distinctness for a source document's custom entries.
pub open spec fn partial_keys_distinct(p: PartialConfigView) -> bool {
    forall|i: int, j: int|
        0 <= i < j < p.additional_matrix_entries.len()
            ==> #[trigger] p.additional_matrix_entries[i].0
            != #[trigger] p.additional_matrix_entries[j].0
}

/// Whether every command a source document supplies is non-empty.
/// The document readers only ever produce such documents.
pub open spec fn partial_commands_nonempty(p: PartialConfigView) -> bool {
    &&& match p.bench {
        Some(e) => partial_command_ok(e),
        None => true,
    }
    &&& match p.clippy {
        Some(e) => partial_command_ok(e),
        None => true,
    }
    &&& match p.rustfmt {
        Some(e) => partial_command_ok(e),
        None => true,
    }
    &&& forall|i: int|
        0 <= i < p.additional_matrix_entries.len() ==> #[trigger] partial_command_ok(
            p.additional_matrix_entries[i].1,
        )
}

/// The resolved configuration's command invariant: no entry's command
/// is ever empty after defaulting, so an unintentionally empty
/// configuration can never become a silent no-op job.
pub open spec fn config_commands_nonempty(c: ConfigView) -> bool {
    &&& c.bench.commandline.len() > 0
    &&& c.clippy.commandline.len() > 0
    &&& c.rustfmt.commandline.len() > 0
    &&& forall|i: int|
        0 <= i < c.additional_matrix_entries.len() ==> (
        #[trigger] c.additional_matrix_entries[i]).1.commandline.len() > 0
}

/// Law: resolving a well-formed source document — one that supplies
/// no empty command — yields a configuration in which every entry's
/// command is non-empty: a missing command falls back to the role's
/// default, never to an empty one.
pub proof fn lemma_resolved_commands_never_empty(p: PartialConfigView)
    requires
        partial_commands_nonempty(p),
    ensures
        config_commands_nonempty(resolve_view(p)),
{
    lemma_role_default_commands_nonempty();
    let c = resolve_view(p);
    match p.bench {
        Some(e) => lemma_merged_command_never_empty(bench_defaults_view(), e),
        None => lemma_merged_command_never_empty(bench_defaults_view(), empty_partial_entry_view()),
    }
    match p.clippy {
        Some(e) => lemma_merged_command_never_empty(clippy_defaults_view(), e),
        None => lemma_merged_command_never_empty(
            clippy_defaults_view(),
            empty_partial_entry_view(),
        ),
    }
    match p.rustfmt {
        Some(e) => lemma_merged_command_never_empty(rustfmt_defaults_view(), e),
        None => lemma_merged_command_never_empty(
            rustfmt_defaults_view(),
            empty_partial_entry_view(),
        ),
    }
    assert forall|i: int|
        0 <= i < c.additional_matrix_entries.len() implies (
    #[trigger] c.additional_matrix_entries[i]).1.commandline.len() > 0 by {
        assert(partial_command_ok(p.additional_matrix_entries[i].1));
        lemma_merged_command_never_empty(
            custom_defaults_view(),
            p.additional_matrix_entries[i].1,
        );
    }
}

/// The fully-default configuration: what resolution yields when no
/// source document supplies anything.
pub open spec fn default_config_view() -> ConfigView {
    ConfigView {
        bench: bench_defaults_view(),
        clippy: clippy_defaults_view(),
        rustfmt: rustfmt_defaults_view(),
        additional_matrix_entries: Seq::empty(),
        cache: "cargo"@,
        os: "linux"@,
        dist: "xenial"@,
        versions: seq!["stable"@, "nightly"@],
        test_commandline: "cargo test --verbose --all"@,
        scheduled_test_branches: seq!["master"@],
        test_schedule: "0 0 * * 0"@,
    }
}

/// The configuration a source document resolves to: each matrix entry
/// is the field-by-field merge of its role's defaults with what the
/// document supplies, each custom entry is merged against the custom
/// role's defaults under its own name, and each scalar setting is the
/// document's value or the compiled-in default.
pub open spec fn resolve_view(p: PartialConfigView) -> ConfigView {
    ConfigView {
        bench: merge_entry_view(
            bench_defaults_view(),
            match p.bench {
                Some(e) => e,
                None => empty_partial_entry_view(),
            },
        ),
        clippy: merge_entry_view(
            clippy_defaults_view(),
            match p.clippy {
                Some(e) => e,
                None => empty_partial_entry_view(),
            },
        ),
        rustfmt: merge_entry_view(
            rustfmt_defaults_view(),
            match p.rustfmt {
                Some(e) => e,
                None => empty_partial_entry_view(),
            },
        ),
        additional_matrix_entries: p.additional_matrix_entries.map_values(
            |q: (Seq<char>, PartialEntryView)|
                (q.0, merge_entry_view(custom_defaults_view(), q.1)),
        ),
        cache: match p.cache {
            Some(s) => s,
            None => default_config_view().cache,
        },
        os: match p.os {
            Some(s) => s,
            None => default_config_view().os,
        },
        dist: match p.dist {
            Some(s) => s,
            None => default_config_view().dist,
        },
        versions: match p.versions {
            Some(v) => v,
            None => default_config_view().versions,
        },
        test_commandline: match p.test_commandline {
            Some(s) => s,
            None => default_config_view().test_commandline,
        },
        scheduled_test_branches: match p.scheduled_test_branches {
            Some(v) => v,
            None => default_config_view().scheduled_test_branches,
        },
        test_schedule: match p.test_schedule {
            Some(s) => s,
            None => default_config_view().test_schedule,
        },
    }
}

/// Law: resolving keeps the custom entries' names, in order; in
/// particular it keeps them pairwise distinct.
pub proof fn lemma_resolve_preserves_keys(p: PartialConfigView)
    ensures
        resolve_view(p).additional_matrix_entries.len() == p.additional_matrix_entries.len(),
        forall|i: int|
            0 <= i < p.additional_matrix_entries.len()
                ==> #[trigger] resolve_view(p).additional_matrix_entries[i].0
                == p.additional_matrix_entries[i].0,
        partial_keys_distinct(p) ==> config_keys_distinct(resolve_view(p)),
{
}

fn clone_string_vec(v: &Vec<String>) -> (r: Vec<String>)
    ensures
        strings_view(r) == strings_view(*v),
{
    let mut r: Vec<String> = Vec::new();
    let mut i: usize = 0;
    while i < v.len()
        invariant
            i <= v.len(),
            r@.len() == i,
            forall|j: int| 0 <= j < i ==> #[trigger] r@[j]@ == v@[j]@,
        decreases v.len() - i,
    {
        r.push(v[i].clone());
        i += 1;
    }
    proof {
        assert(strings_view(r) =~= strings_view(*v));
    }
    r
}

impl Default for TemplateCIConfig {
    /// The fully-default configuration.
    fn default() -> (r: Self)
        ensures
            r@ == default_config_view(),
            config_commands_nonempty(r@),
    {
        let r = TemplateCIConfig {
            bench: bench_defaults(),
            clippy: clippy_defaults(),
            rustfmt: rustfmt_defaults(),
            additional_matrix_entries: Vec::new(),
            cache: Self::default_cache(),
            os: Self::default_os(),
            dist: Self::default_dist(),
            versions: Self::default_versions(),
            test_commandline: Self::default_test_commandline(),
            scheduled_test_branches: Self::default_scheduled_test_branches(),
            test_schedule: Self::default_test_schedule(),
        };
        proof {
            assert(entries_view(r.additional_matrix_entries) =~= Seq::<(
                Seq<char>,
                EntryView,
            )>::empty());
            lemma_role_default_commands_nonempty();
        }
        r
    }
}

impl TemplateCIConfig {
    /// The default cache strategy identifier.
    pub fn default_cache() -> (r: String)
        ensures
            r@ == default_config_view().cache,
    {
        "cargo".to_owned()
    }

    /// The default OS identifier.
    pub fn default_os() -> (r: String)
        ensures
            r@ == default_config_view().os,
    {
        "linux".to_owned()
    }

    /// The default distribution identifier.
    pub fn default_dist() -> (r: String)
        ensures
            r@ == default_config_view().dist,
    {
        "xenial".to_owned()
    }

    /// The default list of toolchain versions to test against.
    pub fn default_versions() -> (r: Vec<String>)
        ensures
            strings_view(r) == default_config_view().versions,
    {
        let mut r: Vec<String> = Vec::new();
        r.push("stable".to_owned());
        r.push("nightly".to_owned());
        proof {
            assert(strings_view(r) =~= default_config_view().versions);
        }
        r
    }

    /// The default primary test command.
    pub fn default_test_commandline() -> (r: String)
        ensures
            r@ == default_config_view().test_commandline,
    {
        "cargo test --verbose --all".to_owned()
    }

    /// The default cron-style schedule expression: every Sunday at
    /// 0:00 UTC.
    pub fn default_test_schedule() -> (r: String)
        ensures
            r@ == default_config_view().test_schedule,
    {
        "0 0 * * 0".to_owned()
    }

    /// The default list of branches eligible for scheduled testing.
    pub fn default_scheduled_test_branches() -> (r: Vec<String>)
        ensures
            strings_view(r) == default_config_view().scheduled_test_branches,
    {
        let mut r: Vec<String> = Vec::new();
        r.push("master".to_owned());
        proof {
            assert(strings_view(r) =~= default_config_view().scheduled_test_branches);
        }
        r
    }

    /// Builds the resolved configuration from what one source document
    /// supplies, applying the defaulting rules of [`resolve_view`].
    pub fn from_partial(p: &PartialConfig) -> (r: TemplateCIConfig)
        ensures
            r@ == resolve_view(p@),
            partial_commands_nonempty(p@) ==> config_commands_nonempty(r@),
    {
        let empty = PartialEntry {
            run: None,
            run_cron: None,
            version: None,
            install_commandline: None,
            commandline: None,
            timeout: None,
        };
        let bench = match &p.bench {
            Some(e) => merge_entry(&bench_defaults(), e),
            None => merge_entry(&bench_defaults(), &empty),
        };
        let clippy = match &p.clippy {
            Some(e) => merge_entry(&clippy_defaults(), e),
            None => merge_entry(&clippy_defaults(), &empty),
        };
        let rustfmt = match &p.rustfmt {
            Some(e) => merge_entry(&rustfmt_defaults(), e),
            None => merge_entry(&rustfmt_defaults(), &empty),
        };
        let mut additional: Vec<(String, MatrixEntry)> = Vec::new();
        let mut i: usize = 0;
        while i < p.additional_matrix_entries.len()
            invariant
                i <= p.additional_matrix_entries.len(),
                additional@.len() == i,
                forall|j: int|
                    0 <= j < i ==> (#[trigger] additional@[j]).0@
                        == p.additional_matrix_entries@[j].0@ && additional@[j].1@
                        == merge_entry_view(
                        custom_defaults_view(),
                        p.additional_matrix_entries@[j].1@,
                    ),
            decreases p.additional_matrix_entries.len() - i,
        {
            let pair = &p.additional_matrix_entries[i];
            let merged = merge_entry(&custom_defaults(), &pair.1);
            additional.push((pair.0.clone(), merged));
            i += 1;
        }
        let r = TemplateCIConfig {
            bench,
            clippy,
            rustfmt,
            additional_matrix_entries: additional,
            cache: match &p.cache {
                Some(s) => s.clone(),
                None => Self::default_cache(),
            },
            os: match &p.os {
                Some(s) => s.clone(),
                None => Self::default_os(),
            },
            dist: match &p.dist {
                Some(s) => s.clone(),
                None => Self::default_dist(),
            },
            versions: match &p.versions {
                Some(v) => clone_string_vec(v),
                None => Self::default_versions(),
            },
            test_commandline: match &p.test_commandline {
                Some(s) => s.clone(),
                None => Self::default_test_commandline(),
            },
            scheduled_test_branches: match &p.scheduled_test_branches {
                Some(v) => clone_string_vec(v),
                None => Self::default_scheduled_test_branches(),
            },
            test_schedule: match &p.test_schedule {
                Some(s) => s.clone(),
                None => Self::default_test_schedule(),
            },
        };
        proof {
            assert(entries_view(r.additional_matrix_entries) =~= resolve_view(
                p@,
            ).additional_matrix_entries);
            assert(r@ =~= resolve_view(p@));
            if partial_commands_nonempty(p@) {
                lemma_resolved_commands_never_empty(p@);
            }
        }
        r
    }
}

/// What went wrong while resolving the configuration.
#[derive(Debug)]
pub enum ConfigError {
    /// The package manifest's metadata could not be obtained.
    CargoMetadata,
    /// The manifest's metadata section could not be read as a
    /// configuration document.
    MetadataJson,
    /// A configuration file is not well-formed TOML.
    TomlParse,
    /// A field of the configuration document has the wrong shape; the
    /// payload names it.
    BadField { field: String },
    /// The configuration source does not exist.
    MissingSource,
}

impl ConfigError {
    /// A human-readable description, in place of `Display`.
    pub fn message(&self) -> (r: String)
        ensures
            r@.len() > 0,
            self matches ConfigError::CargoMetadata ==> r@ == "Could not get cargo metadata"@,
            self matches ConfigError::MetadataJson ==> r@ == "Could not parse cargo metadata"@,
            self matches ConfigError::TomlParse ==> r@
                == "Could not parse TOML configuration file"@,
            self matches ConfigError::BadField { field } ==> r@
                == "Configuration field has the wrong shape: "@ + field@,
            self matches ConfigError::MissingSource ==> r@ == "Configuration file not found"@,
    {
        let r = match self {
            ConfigError::CargoMetadata => "Could not get cargo metadata".to_owned(),
            ConfigError::MetadataJson => "Could not parse cargo metadata".to_owned(),
            ConfigError::TomlParse => "Could not parse TOML configuration file".to_owned(),
            ConfigError::BadField { field } => "Configuration field has the wrong shape: ".to_owned()
                .concat(field.as_str()),
            ConfigError::MissingSource => "Configuration file not found".to_owned(),
        };
        proof {
            reveal_strlit("Could not get cargo metadata");
            reveal_strlit("Could not parse cargo metadata");
            reveal_strlit("Could not parse TOML configuration file");
            reveal_strlit("Configuration field has the wrong shape: ");
            reveal_strlit("Configuration file not found");
        }
        r
    }
}

/// Which source of the resolution cascade supplied the configuration.
#[derive(Clone, Copy, Debug, PartialEq, Eq, Structural)]
pub enum ConfigSource {
    /// The dedicated configuration file.
    PrimaryFile,
    /// The dotfile variant of the dedicated configuration file.
    DotFile,
    /// The metadata section of the package manifest.
    Manifest,
}

/// Picks the first source of the cascade that succeeded, in strict
/// order: the dedicated file, then its dotfile variant, then the
/// package manifest.  When every source failed, the error of the last
/// attempted source — the manifest — is the one returned.
pub fn pick_source(
    primary: Result<TemplateCIConfig, ConfigError>,
    dotfile: Result<TemplateCIConfig, ConfigError>,
    manifest: Result<TemplateCIConfig, ConfigError>,
) -> (r: Result<(TemplateCIConfig, ConfigSource), ConfigError>)
    ensures
        primary matches Ok(c) ==> r matches Ok(p) && p.0 == c && p.1 == ConfigSource::PrimaryFile,
        primary is Err ==> (dotfile matches Ok(c) ==> r matches Ok(p) && p.0 == c && p.1
            == ConfigSource::DotFile),
        primary is Err && dotfile is Err ==> (manifest matches Ok(c) ==> r matches Ok(p) && p.0
            == c && p.1 == ConfigSource::Manifest),
        primary is Err && dotfile is Err ==> (manifest matches Err(e) ==> r matches Err(e2) && e2
            == e),
{
    match primary {
        Ok(c) => Ok((c, ConfigSource::PrimaryFile)),
        Err(_) => match dotfile {
            Ok(c) => Ok((c, ConfigSource::DotFile)),
            Err(_) => match manifest {
                Ok(c) => Ok((c, ConfigSource::Manifest)),
                Err(e) => Err(e),
            },
        },
    }
}

/// The configuration a text resolves to, when it does: `None` when
/// the text is not well-formed TOML or the document it parses to is
/// not a well-shaped configuration; otherwise the resolution — with
/// every field defaulted as [`resolve_view`] says — of what the
/// document supplies.
pub open spec fn config_of_str(s: Seq<char>) -> Option<ConfigView> {
    match crate::source::toml_doc_model(s) {
        Some(m) => if crate::source::config_shape_ok(m) {
            Some(resolve_view(crate::source::config_value(m)))
        } else {
            None
        },
        None => None,
    }
}

/// The `template_ci` member of the manifest metadata's model, when
/// the metadata is an object that has one and it is not null.
pub open spec fn manifest_section(j: crate::source::JsonModel) -> Option<
    crate::source::JsonModel,
> {
    match j {
        crate::source::JsonModel::Object(es) => if crate::source::entries_contain(
            es,
            "template_ci"@,
        ) {
            match crate::source::entries_get(es, "template_ci"@) {
                crate::source::JsonModel::Null => None,
                sec => Some(sec),
            }
        } else {
            None
        },
        _ => None,
    }
}

/// Whether a file-based resolution attempt fails: the file is absent,
/// or its text yields no configuration.
pub open spec fn file_attempt_fails(text: Option<&str>) -> bool {
    match text {
        None => true,
        Some(t) => config_of_str(t@) is None,
    }
}

/// The outcome of querying the package manifest for its metadata.
pub enum ManifestQuery {
    /// The query succeeded; the payload is the package's metadata
    /// value, when the manifest has one.
    Metadata(Option<serde_json::Value>),
    /// The query itself failed.
    Unavailable,
}

impl TemplateCIConfig {
    /// Resolves a configuration from the text of one configuration
    /// file.  The text must be a TOML document; its fields, all
    /// optional, override the compiled-in defaults field by field.
    pub fn from_config_str(text: &str) -> (r: Result<TemplateCIConfig, ConfigError>)
        ensures
            r is Ok <==> config_of_str(text@) is Some,
            r matches Ok(c) ==> (config_of_str(text@) matches Some(cv) && c@ == cv),
            r matches Err(e) ==> e matches ConfigError::TomlParse || e matches
                ConfigError::BadField { .. },
            (r matches Err(ConfigError::TomlParse)) <==> (crate::source::toml_doc_model(text@)
                is None),
            r matches Ok(c) ==> config_keys_distinct(c@),
            r matches Ok(c) ==> config_commands_nonempty(c@),
    {
        match crate::source::parse_toml(text) {
            Err(_) => Err(ConfigError::TomlParse),
            Ok(doc) => match crate::source::partial_config_from_toml(&doc) {
                Err(e) => Err(e),
                Ok(p) => {
                    let c = Self::from_partial(&p);
                    proof {
                        lemma_resolve_preserves_keys(p@);
                    }
                    Ok(c)
                },
            },
        }
    }

    /// Resolves a configuration from the package manifest's metadata
    /// section.  No metadata, a null metadata value, and a metadata
    /// object without the configuration's own key all mean "use the
    /// compiled-in defaults"; anything else must hold a configuration
    /// document under that key.
    pub fn from_manifest(metadata: Option<&serde_json::Value>) -> (r: Result<
        TemplateCIConfig,
        ConfigError,
    >)
        ensures
            metadata is None ==> (r matches Ok(c) && c@ == default_config_view()),
            r matches Err(e) ==> e matches ConfigError::MetadataJson || e matches
                ConfigError::BadField { .. },
            r matches Ok(c) ==> config_keys_distinct(c@),
            metadata matches Some(v) ==> (crate::source::json_model(*v) is Null ==> (r matches Ok(
                c,
            ) && c@ == default_config_view())),
            metadata matches Some(v) ==> ((!(crate::source::json_model(*v) is Null) && !(
            crate::source::json_model(*v) is Object)) ==> r matches Err(
                ConfigError::MetadataJson,
            )),
            metadata matches Some(v) ==> ((crate::source::json_model(*v) is Object
                && manifest_section(crate::source::json_model(*v)) is None) ==> (r matches Ok(c)
                && c@ == default_config_view())),
            metadata matches Some(v) ==> (manifest_section(crate::source::json_model(*v)) matches
                Some(sec) ==> match crate::source::toml_of_json(sec) {
                None => r matches Err(ConfigError::MetadataJson),
                Some(m) => if crate::source::config_shape_ok(m) {
                    r matches Ok(c) && c@ == resolve_view(crate::source::config_value(m))
                } else {
                    r matches Err(ConfigError::BadField { .. })
                },
            }),
            r matches Ok(c) ==> config_commands_nonempty(c@),
    {
        let md = match metadata {
            None => {
                return Ok(TemplateCIConfig::default());
            },
            Some(v) => v,
        };
        if md.is_null() {
            return Ok(TemplateCIConfig::default());
        }
        if !md.is_object() {
            return Err(ConfigError::MetadataJson);
        }
        match crate::source::json_get(md, "template_ci") {
            None => Ok(TemplateCIConfig::default()),
            Some(section) => {
                if section.is_null() {
                    return Ok(TemplateCIConfig::default());
                }
                match crate::source::json_to_toml(section) {
                    Err(_) => Err(ConfigError::MetadataJson),
                    Ok(doc) => match crate::source::partial_config_from_toml(&doc) {
                        Err(e) => Err(e),
                        Ok(p) => {
                            let c = Self::from_partial(&p);
                            proof {
                                lemma_resolve_preserves_keys(p@);
                            }
                            Ok(c)
                        },
                    },
                }
            },
        }
    }

    /// Resolves the effective configuration from the cascade of
    /// sources, tried in strict order: the dedicated configuration
    /// file's text, then the dotfile variant's text, then the package
    /// manifest's metadata.  A source that is absent or fails to
    /// parse falls through to the next; when every source fails, the
    /// manifest's error is the one returned.
    pub fn merged_configs(
        primary: Option<&str>,
        dotfile: Option<&str>,
        manifest: &ManifestQuery,
    ) -> (r: Result<(TemplateCIConfig, ConfigSource), ConfigError>)
        ensures
            primary matches Some(t) ==> (config_of_str(t@) matches Some(cv) ==> (r matches Ok(p)
                && p.0@ == cv && p.1 == ConfigSource::PrimaryFile)),
            file_attempt_fails(primary) ==> (dotfile matches Some(t) ==> (config_of_str(t@)
                matches Some(cv) ==> (r matches Ok(p) && p.0@ == cv && p.1
                == ConfigSource::DotFile))),
            (file_attempt_fails(primary) && file_attempt_fails(dotfile) && (manifest matches
                ManifestQuery::Metadata(opt) && opt is None)) ==> (r matches Ok(p) && p.0@
                == default_config_view() && p.1 == ConfigSource::Manifest),
            (file_attempt_fails(primary) && file_attempt_fails(dotfile)) ==> (manifest matches
                ManifestQuery::Metadata(opt) ==> (opt matches Some(v) ==> ((
            crate::source::json_model(*v) is Null || (crate::source::json_model(*v) is Object
                && manifest_section(crate::source::json_model(*v)) is None)) ==> (r matches Ok(p)
                && p.0@ == default_config_view() && p.1 == ConfigSource::Manifest)))),
            file_attempt_fails(primary) && file_attempt_fails(dotfile) && manifest is Unavailable
                ==> (r matches Err(e) && e matches ConfigError::CargoMetadata),
            (file_attempt_fails(primary) && file_attempt_fails(dotfile)) ==> (manifest matches
                ManifestQuery::Metadata(opt) ==> (opt matches Some(v) ==> ((!(
            crate::source::json_model(*v) is Null) && !(crate::source::json_model(*v) is Object))
                ==> r matches Err(ConfigError::MetadataJson)))),
            (file_attempt_fails(primary) && file_attempt_fails(dotfile)) ==> (manifest matches
                ManifestQuery::Metadata(opt) ==> (opt matches Some(v) ==> (manifest_section(
                crate::source::json_model(*v),
            ) matches Some(sec) ==> match crate::source::toml_of_json(sec) {
                None => r matches Err(ConfigError::MetadataJson),
                Some(m) => if crate::source::config_shape_ok(m) {
                    r matches Ok(p) && p.0@ == resolve_view(crate::source::config_value(m)) && p.1
                        == ConfigSource::Manifest
                } else {
                    r matches Err(ConfigError::BadField { .. })
                },
            }))),
            r matches Ok(p) ==> config_keys_distinct(p.0@),
            r matches Ok(p) ==> config_commands_nonempty(p.0@),
            (r matches Ok(p) && p.1 == ConfigSource::PrimaryFile) ==> primary is Some,
            (r matches Ok(p) && p.1 == ConfigSource::DotFile) ==> dotfile is Some,
            (r matches Ok(p) && p.1 == ConfigSource::Manifest) ==> manifest matches
                ManifestQuery::Metadata(_),
    {
        let a = match primary {
            Some(text) => TemplateCIConfig::from_config_str(text),
            None => Err(ConfigError::MissingSource),
        };
        let b = match dotfile {
            Some(text) => TemplateCIConfig::from_config_str(text),
            None => Err(ConfigError::MissingSource),
        };
        let c = match manifest {
            ManifestQuery::Metadata(metadata) => TemplateCIConfig::from_manifest(
                metadata.as_ref(),
            ),
            ManifestQuery::Unavailable => Err(ConfigError::CargoMetadata),
        };
        pick_source(a, b, c)
    }
}

} // verus!
