use vstd::prelude::*;

verus! {

/// Why a command line could not be turned into a [`Config`].
#[derive(Debug)]
pub enum ParseError {
    /// Both `-n` and `-b` were given.
    ConflictingFlags,
    /// The arguments were malformed; the text says how.
    UsageError(String),
    /// Help or the version was asked for: the text to print before a
    /// successful exit.
    HelpRequested(String),
}

impl ParseError {
    /// The text shown to the user; a conflict names both flags.
    pub open spec fn spec_message(&self) -> Seq<char> {
        match self {
            ParseError::ConflictingFlags => "the argument '--number' cannot be used with '--number-nonblank'"@,
            ParseError::UsageError(text) => text@,
            ParseError::HelpRequested(text) => text@,
        }
    }

    pub fn message(&self) -> (r: String)
        ensures
            r@ == self.spec_message(),
    {
        match self {
            ParseError::ConflictingFlags => String::from_str(
                "the argument '--number' cannot be used with '--number-nonblank'",
            ),
            ParseError::UsageError(text) => text.clone(),
            ParseError::HelpRequested(text) => text.clone(),
        }
    }
}

/// What to read and how to number it.
#[derive(Debug)]
pub struct Config {
    files: Vec<String>,
    number_lines: bool,
    number_nonblank_lines: bool,
}

impl Config {
    /// The input names, in order; `"-"` stands for standard input.
    pub closed spec fn spec_files(&self) -> Seq<Seq<char>> {
        self.files@.map_values(|f: String| f@)
    }

    pub closed spec fn spec_number_lines(&self) -> bool {
        self.number_lines
    }

    pub closed spec fn spec_number_nonblank_lines(&self) -> bool {
        self.number_nonblank_lines
    }

    /// At least one input, and at most one numbering mode.
    pub open spec fn wf(&self) -> bool {
        &&& self.spec_files().len() > 0
        &&& !(self.spec_number_lines() && self.spec_number_nonblank_lines())
    }

    /// Builds a configuration from the parsed command line. No file names
    /// means standard input alone; asking for both numbering modes is refused.
    pub fn new(files: Vec<String>, number_lines: bool, number_nonblank_lines: bool) -> (r: Result<Config, ParseError>)
        ensures
            (number_lines && number_nonblank_lines) <==> r is Err,
            r is Err ==> r->Err_0 is ConflictingFlags,
            r matches Ok(c) ==> {
                &&& c.wf()
                &&& c.spec_number_lines() == number_lines
                &&& c.spec_number_nonblank_lines() == number_nonblank_lines
                &&& c.spec_files() == if files@.len() == 0 {
                    seq![seq!['-']]
                } else {
                    files@.map_values(|f: String| f@)
                }
            },
    {
        if number_lines && number_nonblank_lines {
            return Err(ParseError::ConflictingFlags);
        }
        let ghost given = files@;
        let mut files = files;
        if files.len() == 0 {
            let dash = String::from_str("-");
            proof {
                reveal_strlit("-");
            }
            assert(dash@ == seq!['-']);
            files.push(dash);
            assert(files@.map_values(|f: String| f@) =~= seq![seq!['-']]);
        }
        let c = Config { files, number_lines, number_nonblank_lines };
        Ok(c)
    }

    /// The input names, in order.
    pub fn files(&self) -> (r: &Vec<String>)
        ensures
            r@.map_values(|f: String| f@) == self.spec_files(),
    {
        &self.files
    }

    pub fn number_lines(&self) -> (r: bool)
        ensures
            r == self.spec_number_lines(),
    {
        self.number_lines
    }

    pub fn number_nonblank_lines(&self) -> (r: bool)
        ensures
            r == self.spec_number_nonblank_lines(),
    {
        self.number_nonblank_lines
    }
}

} // verus!
