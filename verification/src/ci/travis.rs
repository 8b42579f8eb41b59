//! The Travis backend: no validation requirement, and the persist
//! plan for `.travis.yml`.

use vstd::prelude::*;

use crate::ci::{
    document_view, preamble_line, preamble_view, render_document, CiError, PersistPlan,
};
use crate::config::TemplateCIConfig;

verus! {

/// The Travis backend: a resolved configuration and nothing else.
#[derive(Debug)]
pub struct TravisCI {
    pub conf: TemplateCIConfig,
}

/// The destination of the generated Travis configuration, under the
/// resolution root.
pub open spec fn travis_config_path(root: Seq<char>) -> Seq<char> {
    root + "/.travis.yml"@
}

impl TravisCI {
    /// Builds the backend instance from a resolved configuration.
    pub fn from(conf: TemplateCIConfig) -> (r: TravisCI)
        ensures
            r.conf == conf,
    {
        TravisCI { conf }
    }

    /// The preamble of the generated file: a comment line dumping the
    /// resolved configuration.
    pub fn preamble(&self) -> (r: String)
        ensures
            r@ == preamble_view(self.conf@),
            r@.len() > 0,
            r@[0] == '#',
    {
        preamble_line(&self.conf)
    }

    /// The canonical destination path of the generated configuration,
    /// relative to the resolution root: a fixed top-level dotfile.
    pub fn config_file_name(&self, root: &str) -> (r: String)
        ensures
            r@ == travis_config_path(root@),
    {
        let mut p: String = root.to_owned();
        p.append("/.travis.yml");
        p
    }

    /// The pre-render validation hook.  Travis has no validation
    /// requirement, so this is the default hook: it always succeeds.
    pub fn validate_config(&self) -> (r: Result<(), crate::bors::BorsError>)
        ensures
            r is Ok,
    {
        Ok(())
    }

    /// Plans the render-and-persist operation: demands a successfully
    /// rendered body and assembles the destination path and the
    /// file's full contents.  A failed rendering yields an error and
    /// no plan, so the caller touches no file.
    pub fn persist_plan(&self, root: &str, rendered_body: Option<&str>) -> (r: Result<
        PersistPlan,
        CiError,
    >)
        ensures
            rendered_body is None ==> (r matches Err(e) && e matches CiError::TemplateError),
            rendered_body matches Some(b) ==> (r matches Ok(plan) && plan.document@
                == document_view(preamble_view(self.conf@), b@) && plan.path@
                == travis_config_path(root@)),
    {
        match rendered_body {
            None => Err(CiError::TemplateError),
            Some(body) => {
                let preamble = self.preamble();
                Ok(
                    PersistPlan {
                        path: self.config_file_name(root),
                        document: render_document(preamble.as_str(), body),
                    },
                )
            },
        }
    }
}

} // verus!
