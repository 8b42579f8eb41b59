//! What the CI backends share: the preamble written ahead of every
//! generated file, the assembly of the full document, and the errors
//! the render-and-persist operation can surface.
//!
//! The persist operation itself is split: everything that decides and
//! computes — validation, the preamble, the document's exact bytes,
//! the destination path — happens here, and the caller only carries
//! the finished plan to disk (directory creation, a temporary file in
//! the destination's directory, one atomic rename).

use vstd::prelude::*;

use crate::bors::BorsError;
use crate::config::{strings_view, ConfigView, TemplateCIConfig};
use crate::entry::{EntryView, MatrixEntry};
use crate::text::{u64_dec, u64_to_string};

pub mod circleci;
pub mod travis;

verus! {

/// What went wrong ahead of writing a backend's configuration file.
/// Filesystem failures are the caller's own, reported by its I/O
/// layer; they cannot arise here.
#[derive(Debug)]
pub enum CiError {
    /// The injected template rendering failed: a defect in the
    /// backend's derived data, not in the user's input.
    TemplateError,
    /// The backend's validation hook rejected the configuration.
    BorsConfig { source: BorsError },
}

impl CiError {
    /// A human-readable description, in place of `Display`.
    pub fn message(&self) -> (r: String)
        ensures
            r@.len() > 0,
            self matches CiError::TemplateError ==> r@ == "could not render template"@,
            self matches CiError::BorsConfig { source } ==> r@ == crate::bors::bors_message_view(
                *source,
            ),
    {
        let r = match self {
            CiError::TemplateError => "could not render template".to_owned(),
            CiError::BorsConfig { source } => source.message(),
        };
        proof {
            reveal_strlit("could not render template");
        }
        r
    }
}

/// Everything the caller needs in order to persist one backend's
/// configuration file: the destination path, relative to the
/// resolution root, and the file's full contents.
#[derive(Debug)]
pub struct PersistPlan {
    pub path: String,
    pub document: String,
}

/// The full contents of a generated file: the preamble line, the
/// rendered body, and a single trailing newline after the body.
pub open spec fn document_view(preamble: Seq<char>, body: Seq<char>) -> Seq<char> {
    preamble + "\n"@ + body + "\n"@
}

/// Assembles the full contents of a generated file.
pub fn render_document(preamble: &str, body: &str) -> (r: String)
    ensures
        r@ == document_view(preamble@, body@),
{
    let mut out: String = preamble.to_owned();
    out.append("\n");
    out.append(body);
    out.append("\n");
    out
}

/// Law: the persisted content is a function of the resolved
/// configuration and the rendered body alone, so running the persist
/// operation twice with unchanged inputs produces byte-identical
/// output both times.
pub proof fn lemma_persist_content_deterministic(
    c1: ConfigView,
    c2: ConfigView,
    b1: Seq<char>,
    b2: Seq<char>,
)
    requires
        c1 == c2,
        b1 == b2,
    ensures
        document_view(preamble_view(c1), b1) == document_view(preamble_view(c2), b2),
{
}

/// Law: the generated document begins with the preamble — whose
/// first character is the comment marker — then a newline, then the
/// rendered body, then a single trailing newline.
pub proof fn lemma_document_shape(c: ConfigView, b: Seq<char>)
    ensures
        document_view(preamble_view(c), b).len() == preamble_view(c).len() + b.len() + 2,
        document_view(preamble_view(c), b).take(preamble_view(c).len() as int) == preamble_view(
            c,
        ),
        document_view(preamble_view(c), b)[0] == '#',
        document_view(preamble_view(c), b)[preamble_view(c).len() as int] == '\n',
        document_view(preamble_view(c), b).last() == '\n',
{
    reveal_strlit("\n");
    reveal_strlit("# ");
    assert(document_view(preamble_view(c), b).take(preamble_view(c).len() as int)
        =~= preamble_view(c));
}

pub open spec fn bool_text(b: bool) -> Seq<char> {
    if b {
        "true"@
    } else {
        "false"@
    }
}

pub open spec fn opt_command_text(o: Option<Seq<char>>) -> Seq<char> {
    match o {
        None => "None"@,
        Some(s) => "Some(\""@ + s + "\")"@,
    }
}

pub open spec fn timeout_text(o: Option<u64>) -> Seq<char> {
    match o {
        None => "None"@,
        Some(t) => "Some("@ + u64_dec(t) + "s)"@,
    }
}

/// The dump of one matrix entry inside the preamble.
pub open spec fn entry_dump_view(e: EntryView) -> Seq<char> {
    "MatrixEntry { run: "@ + bool_text(e.run) + ", run_cron: "@ + bool_text(e.run_cron)
        + ", version: \""@ + e.version + "\", install_commandline: "@ + opt_command_text(
        e.install_commandline,
    ) + ", commandline: \""@ + e.commandline + "\", timeout: "@ + timeout_text(e.timeout) + " }"@
}

/// The items of a dumped list of strings, each quoted, separated by
/// commas.
pub open spec fn quoted_items_view(ss: Seq<Seq<char>>) -> Seq<char>
    decreases ss.len(),
{
    if ss.len() == 0 {
        Seq::empty()
    } else if ss.len() == 1 {
        "\""@ + ss[0] + "\""@
    } else {
        quoted_items_view(ss.drop_last()) + ", \""@ + ss.last() + "\""@
    }
}

/// The dump of a list of strings.
pub open spec fn list_dump_view(ss: Seq<Seq<char>>) -> Seq<char> {
    "["@ + quoted_items_view(ss) + "]"@
}

/// The items of the dumped custom-entry mapping.
pub open spec fn customs_items_view(es: Seq<(Seq<char>, EntryView)>) -> Seq<char>
    decreases es.len(),
{
    if es.len() == 0 {
        Seq::empty()
    } else if es.len() == 1 {
        "\""@ + es[0].0 + "\": "@ + entry_dump_view(es[0].1)
    } else {
        customs_items_view(es.drop_last()) + ", \""@ + es.last().0 + "\": "@ + entry_dump_view(
            es.last().1,
        )
    }
}

/// The dump of the custom-entry mapping.
pub open spec fn customs_dump_view(es: Seq<(Seq<char>, EntryView)>) -> Seq<char> {
    "{"@ + customs_items_view(es) + "}"@
}

/// The dump of the whole resolved configuration.
pub open spec fn config_dump_view(c: ConfigView) -> Seq<char> {
    "TemplateCIConfig { bench: "@ + entry_dump_view(c.bench) + ", clippy: "@ + entry_dump_view(
        c.clippy,
    ) + ", rustfmt: "@ + entry_dump_view(c.rustfmt) + ", additional_matrix_entries: "@
        + customs_dump_view(c.additional_matrix_entries) + ", cache: \""@ + c.cache + "\", os: \""@
        + c.os + "\", dist: \""@ + c.dist + "\", versions: "@ + list_dump_view(c.versions)
        + ", test_commandline: \""@ + c.test_commandline + "\", scheduled_test_branches: "@
        + list_dump_view(c.scheduled_test_branches) + ", test_schedule: \""@ + c.test_schedule
        + "\" }"@
}

/// The preamble: one `#`-prefixed comment line holding the dump of
/// the resolved configuration.
pub open spec fn preamble_view(c: ConfigView) -> Seq<char> {
    "# "@ + config_dump_view(c)
}

/// Dumps one matrix entry.
pub fn dump_entry(e: &MatrixEntry) -> (r: String)
    ensures
        r@ == entry_dump_view(e@),
{
    let install: String = match &e.install_commandline {
        None => "None".to_owned(),
        Some(s) => {
            let mut t: String = "Some(\"".to_owned();
            t.append(s.as_str());
            t.append("\")");
            proof {
                assert(t@ =~= opt_command_text(e@.install_commandline));
            }
            t
        },
    };
    let timeout: String = match e.timeout {
        None => "None".to_owned(),
        Some(secs) => {
            let mut t: String = "Some(".to_owned();
            let digits = u64_to_string(secs);
            t.append(digits.as_str());
            t.append("s)");
            proof {
                assert(t@ =~= timeout_text(e@.timeout));
            }
            t
        },
    };
    let mut out: String = "MatrixEntry { run: ".to_owned();
    out.append(if e.run {
        "true"
    } else {
        "false"
    });
    out.append(", run_cron: ");
    out.append(if e.run_cron {
        "true"
    } else {
        "false"
    });
    out.append(", version: \"");
    out.append(e.version.as_str());
    out.append("\", install_commandline: ");
    out.append(install.as_str());
    out.append(", commandline: \"");
    out.append(e.commandline.as_str());
    out.append("\", timeout: ");
    out.append(timeout.as_str());
    out.append(" }");
    out
}

/// Dumps a list of strings.
pub fn dump_string_list(v: &Vec<String>) -> (r: String)
    ensures
        r@ == list_dump_view(strings_view(*v)),
{
    let ghost ss = strings_view(*v);
    let mut out: String = "[".to_owned();
    let mut i: usize = 0;
    while i < v.len()
        invariant
            i <= v.len(),
            ss == strings_view(*v),
            out@ == "["@ + quoted_items_view(ss.take(i as int)),
        decreases v.len() - i,
    {
        if i > 0 {
            out.append(", \"");
        } else {
            out.append("\"");
        }
        out.append(v[i].as_str());
        out.append("\"");
        proof {
            assert(ss.take(i as int + 1).drop_last() =~= ss.take(i as int));
            assert(ss.take(i as int + 1).last() == ss[i as int]);
            assert(out@ =~= "["@ + quoted_items_view(ss.take(i as int + 1)));
        }
        i += 1;
    }
    out.append("]");
    proof {
        assert(ss.take(v@.len() as int) =~= ss);
        assert(out@ =~= list_dump_view(strings_view(*v)));
    }
    out
}

/// Dumps the custom-entry mapping.
pub fn dump_customs(v: &Vec<(String, MatrixEntry)>) -> (r: String)
    ensures
        r@ == customs_dump_view(crate::config::entries_view(*v)),
{
    let ghost es = crate::config::entries_view(*v);
    let mut out: String = "{".to_owned();
    let mut i: usize = 0;
    while i < v.len()
        invariant
            i <= v.len(),
            es == crate::config::entries_view(*v),
            out@ == "{"@ + customs_items_view(es.take(i as int)),
        decreases v.len() - i,
    {
        if i > 0 {
            out.append(", \"");
        } else {
            out.append("\"");
        }
        let pair = &v[i];
        out.append(pair.0.as_str());
        out.append("\": ");
        let entry_text = dump_entry(&pair.1);
        out.append(entry_text.as_str());
        proof {
            assert(es.take(i as int + 1).drop_last() =~= es.take(i as int));
            assert(es.take(i as int + 1).last() == es[i as int]);
            assert(out@ =~= "{"@ + customs_items_view(es.take(i as int + 1)));
        }
        i += 1;
    }
    out.append("}");
    proof {
        assert(es.take(v@.len() as int) =~= es);
        assert(out@ =~= customs_dump_view(crate::config::entries_view(*v)));
    }
    out
}

/// Dumps the whole resolved configuration.
pub fn config_dump(conf: &TemplateCIConfig) -> (r: String)
    ensures
        r@ == config_dump_view(conf@),
{
    let mut out: String = "TemplateCIConfig { bench: ".to_owned();
    let bench_text = dump_entry(&conf.bench);
    out.append(bench_text.as_str());
    out.append(", clippy: ");
    let clippy_text = dump_entry(&conf.clippy);
    out.append(clippy_text.as_str());
    out.append(", rustfmt: ");
    let rustfmt_text = dump_entry(&conf.rustfmt);
    out.append(rustfmt_text.as_str());
    out.append(", additional_matrix_entries: ");
    let customs_text = dump_customs(&conf.additional_matrix_entries);
    out.append(customs_text.as_str());
    out.append(", cache: \"");
    out.append(conf.cache.as_str());
    out.append("\", os: \"");
    out.append(conf.os.as_str());
    out.append("\", dist: \"");
    out.append(conf.dist.as_str());
    out.append("\", versions: ");
    let versions_text = dump_string_list(&conf.versions);
    out.append(versions_text.as_str());
    out.append(", test_commandline: \"");
    out.append(conf.test_commandline.as_str());
    out.append("\", scheduled_test_branches: ");
    let branches_text = dump_string_list(&conf.scheduled_test_branches);
    out.append(branches_text.as_str());
    out.append(", test_schedule: \"");
    out.append(conf.test_schedule.as_str());
    out.append("\" }");
    out
}

/// The preamble for one resolved configuration: a single comment line
/// whose first character is `#`.
pub fn preamble_line(conf: &TemplateCIConfig) -> (r: String)
    ensures
        r@ == preamble_view(conf@),
        r@.len() > 0,
        r@[0] == '#',
{
    let mut out: String = "# ".to_owned();
    let dump = config_dump(conf);
    out.append(dump.as_str());
    proof {
        reveal_strlit("# ");
    }
    out
}

} // verus!
