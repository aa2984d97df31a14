//! A page with two procedure buttons that raise flags.
use vstd::prelude::*;

verus! {

pub struct ProceduresPage {
    pub full_procedure_run: bool,
    pub autotest_run: bool,
}

impl ProceduresPage {
    /// Neither procedure requested.
    pub fn new() -> (page: Self)
        ensures
            !page.full_procedure_run,
            !page.autotest_run,
    {
        ProceduresPage { full_procedure_run: false, autotest_run: false }
    }
}

} // verus!
