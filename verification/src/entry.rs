//! The matrix entry model: one independently toggleable CI job and the
//! field-by-field defaulting rules that build it.

use vstd::prelude::*;

verus! {

/// One fully resolved CI job: whether it runs, whether it additionally
/// runs on the periodic schedule, the toolchain version it uses, an
/// optional installation command, the command itself, and an optional
/// timeout in seconds.
#[derive(Debug)]
pub struct MatrixEntry {
    pub run: bool,
    pub run_cron: bool,
    pub version: String,
    pub install_commandline: Option<String>,
    pub commandline: String,
    pub timeout: Option<u64>,
}

/// The fields of a matrix entry as a source document supplies them:
/// every field may be absent, and an absent field falls back to the
/// compiled-in default of the entry's role.
#[derive(Debug)]
pub struct PartialEntry {
    pub run: Option<bool>,
    pub run_cron: Option<bool>,
    pub version: Option<String>,
    pub install_commandline: Option<String>,
    pub commandline: Option<String>,
    pub timeout: Option<u64>,
}

/// The mathematical value of a [`MatrixEntry`].
#[verifier::ext_equal]
pub ghost struct EntryView {
    pub run: bool,
    pub run_cron: bool,
    pub version: Seq<char>,
    pub install_commandline: Option<Seq<char>>,
    pub commandline: Seq<char>,
    pub timeout: Option<u64>,
}

/// The mathematical value of a [`PartialEntry`].
#[verifier::ext_equal]
pub ghost struct PartialEntryView {
    pub run: Option<bool>,
    pub run_cron: Option<bool>,
    pub version: Option<Seq<char>>,
    pub install_commandline: Option<Seq<char>>,
    pub commandline: Option<Seq<char>>,
    pub timeout: Option<u64>,
}

pub open spec fn opt_str_view(o: Option<String>) -> Option<Seq<char>> {
    match o {
        Some(s) => Some(s@),
        None => None,
    }
}

impl View for MatrixEntry {
    type V = EntryView;

    open spec fn view(&self) -> EntryView {
        EntryView {
            run: self.run,
            run_cron: self.run_cron,
            version: self.version@,
            install_commandline: opt_str_view(self.install_commandline),
            commandline: self.commandline@,
            timeout: self.timeout,
        }
    }
}

impl View for PartialEntry {
    type V = PartialEntryView;

    open spec fn view(&self) -> PartialEntryView {
        PartialEntryView {
            run: self.run,
            run_cron: self.run_cron,
            version: opt_str_view(self.version),
            install_commandline: opt_str_view(self.install_commandline),
            commandline: opt_str_view(self.commandline),
            timeout: self.timeout,
        }
    }
}

/// A partial entry that supplies no field at all.
pub open spec fn empty_partial_entry_view() -> PartialEntryView {
    PartialEntryView {
        run: None,
        run_cron: None,
        version: None,
        install_commandline: None,
        commandline: None,
        timeout: None,
    }
}

/// The merge of a role's compiled-in default entry with the fields a
/// source record supplies: every supplied field overrides the default
/// for that field alone, every absent field keeps the default.
pub open spec fn merge_entry_view(d: EntryView, p: PartialEntryView) -> EntryView {
    EntryView {
        run: match p.run {
            Some(b) => b,
            None => d.run,
        },
        run_cron: match p.run_cron {
            Some(b) => b,
            None => d.run_cron,
        },
        version: match p.version {
            Some(v) => v,
            None => d.version,
        },
        install_commandline: match p.install_commandline {
            Some(c) => Some(c),
            None => d.install_commandline,
        },
        commandline: match p.commandline {
            Some(c) => c,
            None => d.commandline,
        },
        timeout: match p.timeout {
            Some(t) => Some(t),
            None => d.timeout,
        },
    }
}

/// Builds the resolved entry from a role's defaults and the fields a
/// source record supplies, field by field.
pub fn merge_entry(defaults: &MatrixEntry, partial: &PartialEntry) -> (r: MatrixEntry)
    ensures
        r@ == merge_entry_view(defaults@, partial@),
{
    MatrixEntry {
        run: match partial.run {
            Some(b) => b,
            None => defaults.run,
        },
        run_cron: match partial.run_cron {
            Some(b) => b,
            None => defaults.run_cron,
        },
        version: match &partial.version {
            Some(v) => v.clone(),
            None => defaults.version.clone(),
        },
        install_commandline: match &partial.install_commandline {
            Some(c) => Some(c.clone()),
            None => match &defaults.install_commandline {
                Some(c) => Some(c.clone()),
                None => None,
            },
        },
        commandline: match &partial.commandline {
            Some(c) => c.clone(),
            None => defaults.commandline.clone(),
        },
        timeout: match partial.timeout {
            Some(t) => Some(t),
            None => defaults.timeout,
        },
    }
}

/// The command a custom entry falls back to when no source supplies
/// one: it fails on purpose, so that an unintentionally empty
/// configuration shows up as a CI failure rather than a silent pass.
pub open spec fn placeholder_commandline() -> Seq<char> {
    "/bin/false"@
}

/// Whether a source record's command, when supplied, is non-empty.
/// An explicitly empty command would resolve to a silent no-op job,
/// so the document readers reject it as malformed.
pub open spec fn partial_command_ok(p: PartialEntryView) -> bool {
    match p.commandline {
        Some(c) => c.len() > 0,
        None => true,
    }
}

/// Law: after defaulting, an entry's command is never empty.  A
/// record that supplies no command keeps the role's default — for a
/// custom role the guaranteed-failing placeholder — and a supplied
/// command is non-empty by the well-formedness of the record.
pub proof fn lemma_merged_command_never_empty(d: EntryView, p: PartialEntryView)
    requires
        d.commandline.len() > 0,
        partial_command_ok(p),
    ensures
        merge_entry_view(d, p).commandline.len() > 0,
{
}

/// Each role's compiled-in default command is non-empty.
pub proof fn lemma_role_default_commands_nonempty()
    ensures
        bench_defaults_view().commandline.len() > 0,
        clippy_defaults_view().commandline.len() > 0,
        rustfmt_defaults_view().commandline.len() > 0,
        custom_defaults_view().commandline.len() > 0,
{
    reveal_strlit("cargo bench");
    reveal_strlit("cargo clippy -- -D warnings");
    reveal_strlit("cargo fmt -v -- --check");
    reveal_strlit("/bin/false");
}

/// Compiled-in defaults of the benchmark role.
pub open spec fn bench_defaults_view() -> EntryView {
    EntryView {
        run: false,
        run_cron: false,
        version: "nightly"@,
        install_commandline: None,
        commandline: "cargo bench"@,
        timeout: None,
    }
}

/// Compiled-in defaults of the lint role.
pub open spec fn clippy_defaults_view() -> EntryView {
    EntryView {
        run: true,
        run_cron: false,
        version: "stable"@,
        install_commandline: Some("rustup component add clippy"@),
        commandline: "cargo clippy -- -D warnings"@,
        timeout: None,
    }
}

/// Compiled-in defaults of the format-check role.
pub open spec fn rustfmt_defaults_view() -> EntryView {
    EntryView {
        run: true,
        run_cron: false,
        version: "stable"@,
        install_commandline: Some("rustup component add rustfmt"@),
        commandline: "cargo fmt -v -- --check"@,
        timeout: None,
    }
}

/// Compiled-in defaults of a user-named custom role.
pub open spec fn custom_defaults_view() -> EntryView {
    EntryView {
        run: false,
        run_cron: false,
        version: "stable"@,
        install_commandline: None,
        commandline: placeholder_commandline(),
        timeout: None,
    }
}

/// The benchmark role's default entry.
pub fn bench_defaults() -> (r: MatrixEntry)
    ensures
        r@ == bench_defaults_view(),
{
    MatrixEntry {
        run: false,
        run_cron: false,
        version: "nightly".to_owned(),
        install_commandline: None,
        commandline: "cargo bench".to_owned(),
        timeout: None,
    }
}

/// The lint role's default entry.
pub fn clippy_defaults() -> (r: MatrixEntry)
    ensures
        r@ == clippy_defaults_view(),
{
    MatrixEntry {
        run: true,
        run_cron: false,
        version: "stable".to_owned(),
        install_commandline: Some("rustup component add clippy".to_owned()),
        commandline: "cargo clippy -- -D warnings".to_owned(),
        timeout: None,
    }
}

/// The format-check role's default entry.
pub fn rustfmt_defaults() -> (r: MatrixEntry)
    ensures
        r@ == rustfmt_defaults_view(),
{
    MatrixEntry {
        run: true,
        run_cron: false,
        version: "stable".to_owned(),
        install_commandline: Some("rustup component add rustfmt".to_owned()),
        commandline: "cargo fmt -v -- --check".to_owned(),
        timeout: None,
    }
}

/// A custom role's default entry.
pub fn custom_defaults() -> (r: MatrixEntry)
    ensures
        r@ == custom_defaults_view(),
{
    MatrixEntry {
        run: false,
        run_cron: false,
        version: "stable".to_owned(),
        install_commandline: None,
        commandline: "/bin/false".to_owned(),
        timeout: None,
    }
}

impl MatrixEntry {
    /// The timeout rendered for a backend template: the number of
    /// seconds followed by `s`, or nothing when no timeout is set.
    pub fn timeout_string(&self) -> (r: Option<String>)
        ensures
            match self.timeout {
                Some(t) => r matches Some(s) && s@ == crate::text::u64_dec(t) + "s"@,
                None => r is None,
            },
    {
        match self.timeout {
            Some(t) => Some(crate::text::u64_to_string(t).concat("s")),
            None => None,
        }
    }
}

/// Law: the merge is field-by-field.  A field the source record
/// supplies overrides the default for that field alone, and a field it
/// leaves out keeps the role's default — the record never replaces the
/// defaults wholesale.
pub proof fn lemma_merge_is_field_by_field(d: EntryView, p: PartialEntryView)
    ensures
        p.run is None ==> merge_entry_view(d, p).run == d.run,
        p.run matches Some(b) ==> merge_entry_view(d, p).run == b,
        p.run_cron is None ==> merge_entry_view(d, p).run_cron == d.run_cron,
        p.run_cron matches Some(b) ==> merge_entry_view(d, p).run_cron == b,
        p.version is None ==> merge_entry_view(d, p).version == d.version,
        p.version matches Some(v) ==> merge_entry_view(d, p).version == v,
        p.install_commandline is None ==> merge_entry_view(d, p).install_commandline
            == d.install_commandline,
        p.install_commandline matches Some(c) ==> merge_entry_view(d, p).install_commandline
            == Some(c),
        p.commandline is None ==> merge_entry_view(d, p).commandline == d.commandline,
        p.commandline matches Some(c) ==> merge_entry_view(d, p).commandline == c,
        p.timeout is None ==> merge_entry_view(d, p).timeout == d.timeout,
        p.timeout matches Some(t) ==> merge_entry_view(d, p).timeout == Some(t),
{
}

/// Law: a custom entry whose source supplies no command resolves to
/// the guaranteed-failing placeholder command, never to an empty or
/// absent one.
pub proof fn lemma_custom_without_command_fails_loud(p: PartialEntryView)
    requires
        p.commandline is None,
    ensures
        merge_entry_view(custom_defaults_view(), p).commandline == placeholder_commandline(),
        merge_entry_view(custom_defaults_view(), p).commandline.len() > 0,
{
    reveal_strlit("/bin/false");
}

} // verus!

