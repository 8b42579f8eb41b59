//! The CircleCI backend: fixed branch/tag filter policy, the bors
//! cross-check, and the persist plan for `.circleci/config.yml`.

use vstd::prelude::*;

use crate::bors::{
    bors_status_of, contains_name, legacy_check_name, passes_circleci_rules, sentinel_check_name,
    BorsError,
};
use crate::ci::{
    document_view, preamble_line, preamble_view, render_document, CiError, PersistPlan,
};
use crate::config::{strings_view, ConfigView, TemplateCIConfig};

verus! {

/// One side of the filter rules: the patterns that alone trigger
/// builds, and the patterns excluded from triggering them.
#[derive(Debug)]
pub struct SpecificFilters {
    pub only: Vec<String>,
    pub ignore: Vec<String>,
}

/// The branch and tag filter rules of the generated configuration.
#[derive(Debug)]
pub struct Filters {
    pub branches: SpecificFilters,
    pub tags: SpecificFilters,
}

/// The mathematical value of a [`SpecificFilters`].
#[verifier::ext_equal]
pub ghost struct SpecificFiltersView {
    pub only: Seq<Seq<char>>,
    pub ignore: Seq<Seq<char>>,
}

/// The mathematical value of a [`Filters`].
#[verifier::ext_equal]
pub ghost struct FiltersView {
    pub branches: SpecificFiltersView,
    pub tags: SpecificFiltersView,
}

impl View for SpecificFilters {
    type V = SpecificFiltersView;

    open spec fn view(&self) -> SpecificFiltersView {
        SpecificFiltersView { only: strings_view(self.only), ignore: strings_view(self.ignore) }
    }
}

impl View for Filters {
    type V = FiltersView;

    open spec fn view(&self) -> FiltersView {
        FiltersView { branches: self.branches@, tags: self.tags@ }
    }
}

/// The fixed filter policy: branches matching the temporary-branch
/// pattern never trigger builds, and tags matching the
/// semantic-version pattern are the only tags that do.
pub open spec fn policy_filters_view() -> FiltersView {
    FiltersView {
        branches: SpecificFiltersView {
            only: Seq::empty(),
            ignore: seq!["/.*\\.tmp/"@],
        },
        tags: SpecificFiltersView {
            only: seq!["/^v\\d+\\.\\d+\\.\\d+.*$/"@],
            ignore: Seq::empty(),
        },
    }
}

impl Filters {
    /// Computes the filter rules for one resolved configuration.  The
    /// policy is fixed at this layer: the configuration does not yet
    /// customize it, so every configuration gets the same rules.
    pub fn from_config(_conf: &TemplateCIConfig) -> (r: Filters)
        ensures
            r@ == policy_filters_view(),
    {
        let branch_ignore: Vec<String> = {
            let mut v: Vec<String> = Vec::new();
            v.push("/.*\\.tmp/".to_owned());
            v
        };
        let tag_only: Vec<String> = {
            let mut v: Vec<String> = Vec::new();
            v.push("/^v\\d+\\.\\d+\\.\\d+.*$/".to_owned());
            v
        };
        let r = Filters {
            branches: SpecificFilters { only: Vec::new(), ignore: branch_ignore },
            tags: SpecificFilters { only: tag_only, ignore: Vec::new() },
        };
        proof {
            assert(r@.branches.only =~= policy_filters_view().branches.only);
            assert(r@.branches.ignore =~= policy_filters_view().branches.ignore);
            assert(r@.tags.only =~= policy_filters_view().tags.only);
            assert(r@.tags.ignore =~= policy_filters_view().tags.ignore);
            assert(r@ =~= policy_filters_view());
        }
        r
    }
}

/// The CircleCI backend: a resolved configuration plus the filter
/// rules derived from it at construction.
#[derive(Debug)]
pub struct CircleCI {
    pub conf: TemplateCIConfig,
    pub filters: Filters,
}

/// The destination of the generated CircleCI configuration, under the
/// resolution root.
pub open spec fn circleci_config_path(root: Seq<char>) -> Seq<char> {
    root + "/.circleci/config.yml"@
}

impl CircleCI {
    /// Builds the backend instance from a resolved configuration,
    /// deriving the filter rules once.
    pub fn from(conf: TemplateCIConfig) -> (r: CircleCI)
        ensures
            r.conf == conf,
            r.filters@ == policy_filters_view(),
    {
        let filters = Filters::from_config(&conf);
        CircleCI { conf, filters }
    }

    /// The preamble of the generated file: a comment line dumping the
    /// resolved configuration.
    pub fn preamble(&self) -> (r: String)
        ensures
            r@ == preamble_view(self.conf@),
            r@.len() > 0,
            r@[0] == '#',
    {
        preamble_line(&self.conf)
    }

    /// The canonical destination path of the generated configuration,
    /// relative to the resolution root: a fixed nested path under the
    /// hidden `.circleci` directory.
    pub fn config_file_name(&self, root: &str) -> (r: String)
        ensures
            r@ == circleci_config_path(root@),
    {
        let mut p: String = root.to_owned();
        p.append("/.circleci/config.yml");
        p
    }

    /// The pre-render validation hook: checks the merge bot's
    /// status-check list against the text of its configuration file.
    /// The caller hands over that text, or `None` when the file could
    /// not be read — which is itself an error, never "no
    /// constraints".
    pub fn validate_config(&self, bors_text: Option<&str>) -> (r: Result<(), BorsError>)
        ensures
            bors_text is None ==> (r matches Err(e) && e matches BorsError::IOError),
            bors_text matches Some(t) ==> (r is Ok <==> passes_circleci_rules(t@)),
            bors_text matches Some(t) ==> (bors_status_of(t@) is None ==> (r matches Err(e)
                && e matches BorsError::Toml)),
            bors_text matches Some(t) ==> (bors_status_of(t@) matches Some(names) ==> (
            contains_name(names, legacy_check_name()) ==> r matches Err(
                BorsError::BadCircleStatusCheck { .. },
            ))),
            bors_text matches Some(t) ==> (bors_status_of(t@) matches Some(names) ==> ((
            !contains_name(names, legacy_check_name()) && !contains_name(
                names,
                sentinel_check_name(),
            )) ==> r matches Err(BorsError::MissingCircleStatusCheck { .. }))),
            r matches Err(BorsError::BadCircleStatusCheck { name }) ==> name@
                == legacy_check_name(),
            r matches Err(BorsError::MissingCircleStatusCheck { name }) ==> name@
                == sentinel_check_name(),
    {
        match bors_text {
            None => Err(BorsError::IOError),
            Some(text) => match crate::bors::config_from_str(text) {
                Err(e) => Err(e),
                Ok(cfg) => crate::bors::check_status(&cfg.status),
            },
        }
    }

    /// Plans the render-and-persist operation: runs the validation
    /// hook, then demands a successfully rendered body, and assembles
    /// the destination path and the file's full contents.  A failed
    /// validation or a failed rendering yields an error and no plan,
    /// so the caller touches no file.
    pub fn persist_plan(&self, root: &str, rendered_body: Option<&str>, bors_text: Option<&str>)
        -> (r: Result<PersistPlan, CiError>)
        ensures
            bors_text is None ==> (r matches Err(CiError::BorsConfig { source }) && source matches
                BorsError::IOError),
            bors_text matches Some(t) ==> (!passes_circleci_rules(t@) ==> r matches Err(
                CiError::BorsConfig { .. },
            )),
            bors_text matches Some(t) ==> ((passes_circleci_rules(t@) && rendered_body is None)
                ==> r matches Err(CiError::TemplateError)),
            bors_text matches Some(t) ==> (passes_circleci_rules(t@) ==> (rendered_body matches
                Some(b) ==> (r matches Ok(plan) && plan.document@ == document_view(
                preamble_view(self.conf@),
                b@,
            ) && plan.path@ == circleci_config_path(root@)))),
            r is Ok ==> (bors_text matches Some(t) && passes_circleci_rules(t@)),
            r matches Err(CiError::BorsConfig { source: BorsError::BadCircleStatusCheck { name } })
                ==> name@ == legacy_check_name(),
            r matches Err(
                CiError::BorsConfig { source: BorsError::MissingCircleStatusCheck { name } },
            ) ==> name@ == sentinel_check_name(),
            r matches Err(CiError::TemplateError) ==> rendered_body is None,
            r matches Ok(plan) ==> (rendered_body matches Some(b) && plan.document@
                == document_view(preamble_view(self.conf@), b@) && plan.path@
                == circleci_config_path(root@)),
    {
        match self.validate_config(bors_text) {
            Err(e) => Err(CiError::BorsConfig { source: e }),
            Ok(()) => match rendered_body {
                None => Err(CiError::TemplateError),
                Some(body) => {
                    let preamble = self.preamble();
                    Ok(
                        PersistPlan {
                            path: self.config_file_name(root),
                            document: render_document(preamble.as_str(), body),
                        },
                    )
                },
            },
        }
    }
}

} // verus!
