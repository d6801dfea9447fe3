//! Building the command line under which generated sources are formatted.
//! The formatter runs as a separate program; this module only validates
//! the configuration and assembles the argument list it is started with.

use crate::strutil::str_eq;
use vstd::prelude::*;
use vstd::string::StrSliceExecFns;
use vstd::string::StringExecFns;

verus! {

/// An invocation of the source formatter: the program to start, the
/// language edition to format for, and any additional arguments.
pub struct RustFmtCommand<'cmd> {
    /// Either the formatter's plain name, resolved through the search
    /// path, or a path to an executable.
    program: &'cmd str,
    /// The language edition handed to the formatter.
    edition: &'cmd str,
    /// Any additional arguments.
    extra: Vec<&'cmd str>,
}

impl<'cmd> RustFmtCommand<'cmd> {
    /// The program this command starts, as spoken of in contracts.
    pub closed spec fn spec_program(&self) -> Seq<char> {
        self.program@
    }

    /// The edition this command formats under, as spoken of in contracts.
    pub closed spec fn spec_edition(&self) -> Seq<char> {
        self.edition@
    }

    /// The additional arguments, as spoken of in contracts.
    pub closed spec fn spec_extra(&self) -> Seq<Seq<char>> {
        self.extra@.map_values(|s: &str| s@)
    }
}

/// The editions the formatter is allowed to run under.
pub open spec fn valid_edition(e: Seq<char>) -> bool {
    e == "2015"@ || e == "2018"@ || e == "2021"@
}

/// A failure to assemble the formatter command.
#[derive(Debug)]
pub enum RustFmtError {
    /// The configured edition is none of the allowed ones; carries it.
    InvalidEdition { edition: String },
}

impl RustFmtError {
    /// A diagnostic line describing the failure.
    pub fn message(&self) -> (r: String)
        ensures
            r@ == "invalid edition: "@ + self->InvalidEdition_edition@,
    {
        match self {
            RustFmtError::InvalidEdition { edition } => {
                let mut out = "invalid edition: ".to_owned();
                out.append(edition.as_str());
                out
            },
        }
    }
}

impl<'cmd> Default for RustFmtCommand<'cmd> {
    /// The default command formats with the plain `rustfmt` program under
    /// the 2018 edition and no additional arguments.
    fn default() -> (r: Self)
        ensures
            r.spec_program() == "rustfmt"@,
            r.spec_edition() == "2018"@,
            r.spec_extra().len() == 0,
    {
        RustFmtCommand { program: "rustfmt", edition: "2018", extra: Vec::new() }
    }
}

impl<'cmd> RustFmtCommand<'cmd> {
    /// Build a command for a given program, edition and extra arguments.
    pub fn new(program: &'cmd str, edition: &'cmd str, extra: Vec<&'cmd str>) -> (r: Self)
        ensures
            r.spec_program() == program@,
            r.spec_edition() == edition@,
            r.spec_extra() == extra@.map_values(|s: &str| s@),
    {
        RustFmtCommand { program, edition, extra }
    }

    /// The program this command starts.
    pub fn program(&self) -> (r: &'cmd str)
        ensures
            r@ == self.spec_program(),
    {
        self.program
    }

    /// Assemble the argument list the formatter is started with: the
    /// edition flag and its value, the additional arguments, and the
    /// source files, in that order. Fails exactly when the configured
    /// edition is not one of the allowed ones.
    pub fn command_args(&self, source_files: &Vec<String>) -> (r: Result<Vec<String>, RustFmtError>)
        ensures
            r is Ok <==> valid_edition(self.spec_edition()),
            r is Ok ==> r->Ok_0@.map_values(|s: String| s@) == seq![
                "--edition"@,
                self.spec_edition(),
            ] + self.spec_extra() + source_files@.map_values(|s: String| s@),
            r is Err ==> r->Err_0->InvalidEdition_edition@ == self.spec_edition(),
    {
        if !(str_eq(self.edition, "2015") || str_eq(self.edition, "2018") || str_eq(
            self.edition,
            "2021",
        )) {
            return Err(RustFmtError::InvalidEdition { edition: self.edition.to_owned() });
        }
        let mut args: Vec<String> = Vec::new();
        args.push("--edition".to_owned());
        args.push(self.edition.to_owned());
        let n = self.extra.len();
        let mut i: usize = 0;
        while i < n
            invariant
                n == self.extra@.len(),
                args@.len() == 2 + i,
                i <= n,
                args@[0]@ == "--edition"@,
                args@[1]@ == self.edition@,
                forall|j: int| 0 <= j < i ==> args@[2 + j]@ == #[trigger] self.extra@[j]@,
            decreases n - i,
        {
            args.push(self.extra[i].to_owned());
            i += 1;
        }
        let m = source_files.len();
        let mut k: usize = 0;
        while k < m
            invariant
                n == self.extra@.len(),
                m == source_files@.len(),
                args@.len() == 2 + n + k,
                k <= m,
                args@[0]@ == "--edition"@,
                args@[1]@ == self.edition@,
                forall|j: int| 0 <= j < n ==> args@[2 + j]@ == #[trigger] self.extra@[j]@,
                forall|j: int| 0 <= j < k ==> args@[2 + n + j]@ == #[trigger] source_files@[j]@,
            decreases m - k,
        {
            args.push(source_files[k].clone());
            k += 1;
        }
        proof {
            assert(args@.map_values(|s: String| s@) =~= seq!["--edition"@, self.spec_edition()]
                + self.spec_extra() + source_files@.map_values(|s: String| s@));
        }
        Ok(args)
    }
}

} // verus!
