//! The merge bot's status-check configuration and the rules the
//! CircleCI backend holds it to.

use vstd::prelude::*;

use crate::config::strings_view;

verus! {

/// The merge bot's configuration, as far as this library reads it: an
/// ordered list of status-check names.  It is read-only input.
#[derive(Debug)]
pub struct BorsConfig {
    pub status: Vec<String>,
}

/// What went wrong while reading or checking the merge bot's
/// configuration.
#[derive(Debug)]
pub enum BorsError {
    /// The configuration file could not be read.  The caller reports
    /// this by handing over no text: a repository that uses the merge
    /// bot without a readable configuration is itself suspicious, so
    /// this is an error, not "no constraints".
    IOError,
    /// The configuration text is not a TOML document with a `status`
    /// list of strings.
    Toml,
    /// The status-check list holds CircleCI's legacy aggregate check,
    /// which does not behave the way the merge bot expects; the
    /// payload is that name as it was found.
    BadCircleStatusCheck { name: String },
    /// The status-check list is missing the name the merge bot needs
    /// for CircleCI integration; the payload is the missing name.
    MissingCircleStatusCheck { name: String },
}

/// The description [`BorsError::message`] returns, per variant: the
/// two check errors name the offending or missing status check.
pub open spec fn bors_message_view(e: BorsError) -> Seq<char> {
    match e {
        BorsError::IOError => "could not read bors-ng config"@,
        BorsError::Toml => "could not parse bors-ng config as TOML"@,
        BorsError::BadCircleStatusCheck { name } => "Bad status check \""@ + name@
            + "\": Use \"continuous_integration\""@,
        BorsError::MissingCircleStatusCheck { name } => "Missing status check \""@ + name@
            + "\""@,
    }
}

impl BorsError {
    /// A human-readable description, in place of `Display`.
    pub fn message(&self) -> (r: String)
        ensures
            r@.len() > 0,
            r@ == bors_message_view(*self),
    {
        let r = match self {
            BorsError::IOError => "could not read bors-ng config".to_owned(),
            BorsError::Toml => "could not parse bors-ng config as TOML".to_owned(),
            BorsError::BadCircleStatusCheck { name } => {
                "Bad status check \"".to_owned().concat(name.as_str()).concat(
                    "\": Use \"continuous_integration\"",
                )
            },
            BorsError::MissingCircleStatusCheck { name } => {
                "Missing status check \"".to_owned().concat(name.as_str()).concat("\"")
            },
        };
        proof {
            reveal_strlit("could not read bors-ng config");
            reveal_strlit("could not parse bors-ng config as TOML");
            reveal_strlit("Bad status check \"");
            reveal_strlit("Missing status check \"");
        }
        r
    }
}

/// CircleCI's legacy aggregate status-check name.  It is specifically
/// wrong in a merge-bot configuration, because the aggregate check
/// does not behave the way the bot expects.
pub open spec fn legacy_check_name() -> Seq<char> {
    "ci/circleci: ci_success"@
}

/// The status-check name the merge bot needs to see for CircleCI
/// integration.
pub open spec fn sentinel_check_name() -> Seq<char> {
    "continuous_integration"@
}

/// Whether a list of names holds one with the given text.
pub open spec fn contains_name(names: Seq<Seq<char>>, x: Seq<char>) -> bool {
    exists|i: int| 0 <= i < names.len() && names[i] == x
}

/// The status-check list a bors configuration text supplies, when it
/// does: `None` when the text is not well-formed TOML or its `status`
/// field is missing or is not a list of strings.
pub open spec fn bors_status_of(s: Seq<char>) -> Option<Seq<Seq<char>>> {
    match crate::source::toml_doc_model(s) {
        Some(m) => if m is Table && crate::source::entries_contain(
            crate::source::table_entries(m),
            "status"@,
        ) && crate::source::strings_shape_ok(
            crate::source::entries_get(crate::source::table_entries(m), "status"@),
        ) {
            Some(
                crate::source::strings_value(
                    crate::source::entries_get(crate::source::table_entries(m), "status"@),
                ),
            )
        } else {
            None
        },
        None => None,
    }
}

/// Whether a bors configuration text passes the CircleCI rules: it
/// supplies a status-check list that holds no legacy aggregate check
/// and holds the sentinel name.
pub open spec fn passes_circleci_rules(s: Seq<char>) -> bool {
    bors_status_of(s) matches Some(names) && !contains_name(names, legacy_check_name())
        && contains_name(names, sentinel_check_name())
}

/// Checks a status-check list for CircleCI use: the legacy aggregate
/// check must not be there, and the sentinel name must be.  The
/// legacy check is reported first when both rules are broken.
pub fn check_status(status: &Vec<String>) -> (r: Result<(), BorsError>)
    ensures
        contains_name(strings_view(*status), legacy_check_name()) ==> (r matches Err(e)
            && e matches BorsError::BadCircleStatusCheck { name } && name@ == legacy_check_name()),
        !contains_name(strings_view(*status), legacy_check_name()) && contains_name(
            strings_view(*status),
            sentinel_check_name(),
        ) ==> r is Ok,
        !contains_name(strings_view(*status), legacy_check_name()) && !contains_name(
            strings_view(*status),
            sentinel_check_name(),
        ) ==> (r matches Err(e) && e matches BorsError::MissingCircleStatusCheck { name } && name@
            == sentinel_check_name()),
{
    let legacy: String = "ci/circleci: ci_success".to_owned();
    let mut i: usize = 0;
    while i < status.len()
        invariant
            i <= status.len(),
            legacy@ == legacy_check_name(),
            forall|j: int| 0 <= j < i ==> strings_view(*status)[j] != legacy_check_name(),
        decreases status.len() - i,
    {
        if status[i] == legacy {
            proof {
                assert(strings_view(*status)[i as int] == status@[i as int]@);
                assert(contains_name(strings_view(*status), legacy_check_name()));
            }
            return Err(BorsError::BadCircleStatusCheck { name: status[i].clone() });
        }
        i += 1;
    }
    let sentinel: String = "continuous_integration".to_owned();
    let mut k: usize = 0;
    while k < status.len()
        invariant
            k <= status.len(),
            sentinel@ == sentinel_check_name(),
            forall|j: int| 0 <= j < status@.len() ==> strings_view(*status)[j]
                != legacy_check_name(),
            forall|j: int| 0 <= j < k ==> strings_view(*status)[j] != sentinel_check_name(),
        decreases status.len() - k,
    {
        if status[k] == sentinel {
            proof {
                assert(strings_view(*status)[k as int] == status@[k as int]@);
                assert(contains_name(strings_view(*status), sentinel_check_name()));
            }
            return Ok(());
        }
        k += 1;
    }
    Err(BorsError::MissingCircleStatusCheck { name: sentinel })
}

/// Reads the merge bot's configuration out of its file's text: a TOML
/// document whose `status` field is a list of strings.
pub fn config_from_str(text: &str) -> (r: Result<BorsConfig, BorsError>)
    ensures
        r is Ok <==> bors_status_of(text@) is Some,
        r matches Ok(cfg) ==> (bors_status_of(text@) matches Some(names) && strings_view(
            cfg.status,
        ) == names),
        r matches Err(e) ==> e matches BorsError::Toml,
{
    match crate::source::parse_toml(text) {
        Err(_) => Err(BorsError::Toml),
        Ok(doc) => match crate::source::toml_get(&doc, "status") {
            None => Err(BorsError::Toml),
            Some(x) => match crate::source::strings_from_toml(x, "status") {
                Err(_) => Err(BorsError::Toml),
                Ok(names) => Ok(BorsConfig { status: names }),
            },
        },
    }
}

} // verus!
